//! Code generation functionality.

use crate::parse::{AliasItem, TraitAliases};
use crate::printing::{
    append_attribute, append_bounds, append_generics, append_impl_generics, append_type_generics,
    append_visibility, append_where_clause, attribute_texts, bounds_items, bounds_texts,
    generics_parameters, generics_predicates, generics_texts, impl_generics_texts, push_parameter,
    push_predicate, type_generics_texts, visibility_texts, where_clause_texts, Bounds, WHERE,
};
use crate::special::{identifier, predicate_type, reserved_predicate, type_parameter, SPECIAL};
use crate::tokens::{
    append_group, append_ident, append_punct, append_stream, append_string, concatenated,
    ident_new, ident_string, ident_text, is_identifier, joined, lemma_concatenated_add,
    stream_new, stream_texts, string_literal_text, Delimiter, Texts,
};
use proc_macro2::{Ident, TokenStream};
use syn::{Attribute, Generics};
use vstd::prelude::*;
use vstd::string::StringExecFns;

verus! {

/// The literal `doc` identifier.
pub const DOC: &'static str = "doc";

/// The literal `trait` keyword.
pub const TRAIT: &'static str = "trait";

/// The literal `impl` keyword.
pub const IMPL: &'static str = "impl";

/// The literal `for` keyword.
pub const FOR: &'static str = "for";

/// What the blanket implementation documentation says before the name of the trait.
pub const BLANKET_START: &'static str = "Blanket implementation of [`";

/// What the blanket implementation documentation says behind the name of the trait.
pub const BLANKET_END: &'static str = "`] for all types satisfying its bounds.";

/// The identifier that the path of an attribute consists of, as `Path::get_ident` finds it:
/// the path has no leading `::` and one segment, and the segment has no arguments. `None` for
/// every other path.
pub uninterp spec fn attribute_name(attribute: Attribute) -> Option<Seq<char>>;

/// Whether an attribute is documentation: a documentation comment or `#[doc ...]`.
pub open spec fn is_doc(attribute: Attribute) -> bool {
    attribute_name(attribute) == Some(DOC@)
}

/// The documentation among `attributes`, in the order in which it stands there.
pub open spec fn documentation(attributes: Seq<Attribute>) -> Seq<Attribute>
    decreases attributes.len(),
{
    if attributes.len() == 0 {
        Seq::empty()
    } else if is_doc(attributes.last()) {
        documentation(attributes.drop_last()).push(attributes.last())
    } else {
        documentation(attributes.drop_last())
    }
}

/// Those of `attributes` that are no documentation, in the order in which they stand there.
pub open spec fn annotations(attributes: Seq<Attribute>) -> Seq<Attribute>
    decreases attributes.len(),
{
    if attributes.len() == 0 {
        Seq::empty()
    } else if is_doc(attributes.last()) {
        annotations(attributes.drop_last())
    } else {
        annotations(attributes.drop_last()).push(attributes.last())
    }
}

/// The attributes that the generated trait gets: the documentation, then the others.
pub open spec fn definition_attributes(attributes: Seq<Attribute>) -> Seq<Attribute> {
    documentation(attributes) + annotations(attributes)
}

/// The attributes that the blanket implementation takes over: all but the documentation.
pub open spec fn implementation_attributes(attributes: Seq<Attribute>) -> Seq<Attribute> {
    annotations(attributes)
}

/// How often `attribute` stands among `attributes`.
pub open spec fn times(attributes: Seq<Attribute>, attribute: Attribute) -> nat
    decreases attributes.len(),
{
    if attributes.len() == 0 {
        0
    } else if attributes.last() == attribute {
        times(attributes.drop_last(), attribute) + 1
    } else {
        times(attributes.drop_last(), attribute)
    }
}

/// The texts of attributes, one after another.
pub open spec fn attributes_texts(attributes: Seq<Attribute>) -> Texts
    decreases attributes.len(),
{
    if attributes.len() == 0 {
        Seq::empty()
    } else {
        attributes_texts(attributes.drop_last()) + attribute_texts(attributes.last())
    }
}

/// The documentation of the blanket implementation of the trait called `name`.
pub open spec fn blanket_doc(name: Seq<char>) -> Seq<char> {
    BLANKET_START@ + name + BLANKET_END@
}

/// The texts of `#[doc = "..."]` with the string `text`.
pub open spec fn doc_attribute_texts(text: Seq<char>) -> Texts {
    seq![seq!['#'], seq!['['], DOC@, seq!['='], string_literal_text(text), seq![']']]
}

/// Whether `derived` is `declared` with `__T` added: one parameter more, `__T` without bounds
/// and without default, behind the declared ones; and one predicate more, `__T: bounds + ?Sized`,
/// behind the declared ones, in a `where` clause that is made if none was declared.
pub open spec fn derives(derived: Generics, declared: Generics, bounds: Bounds) -> bool {
    &&& generics_parameters(derived) == generics_parameters(declared).push(seq![SPECIAL@])
    &&& generics_predicates(derived) == generics_predicates(declared).push(
        reserved_predicate(bounds_items(bounds)),
    )
    &&& where_clause_texts(derived) == seq![WHERE@] + joined(
        generics_predicates(derived),
        seq![','],
    )
}

/// The texts of the trait definition:
/// documentation, other attributes, visibility, `trait`, name, parameters as declared, `:`,
/// bounds, the declared `where` clause, `{`, `}`.
pub open spec fn definition_texts(alias: AliasItem) -> Texts {
    attributes_texts(definition_attributes(alias.attrs@)) + visibility_texts(alias.vis) + seq![
        TRAIT@,
        ident_text(alias.ident),
    ] + generics_texts(alias.generics) + seq![seq![':']] + bounds_texts(alias.bounds)
        + where_clause_texts(alias.generics) + seq![seq!['{'], seq!['}']]
}

/// The texts of the blanket implementation:
/// its own documentation, the attributes that are no documentation, `impl`, the parameters
/// of `derived` as an `impl` takes them, name, the declared parameters as arguments, `for`,
/// `__T`, the `where` clause of `derived`, `{`, `}`.
pub open spec fn implementation_texts(alias: AliasItem, derived: Generics) -> Texts {
    doc_attribute_texts(blanket_doc(ident_text(alias.ident))) + attributes_texts(
        implementation_attributes(alias.attrs@),
    ) + seq![IMPL@] + impl_generics_texts(derived) + seq![ident_text(alias.ident)]
        + type_generics_texts(alias.generics) + seq![FOR@, SPECIAL@] + where_clause_texts(derived)
        + seq![seq!['{'], seq!['}']]
}

/// Whether `texts` are what is generated for `alias`: the trait definition, then the blanket
/// implementation, for generics that are the declared ones with `__T` added.
pub open spec fn is_fragment(alias: AliasItem, texts: Texts) -> bool {
    exists|derived: Generics| #[trigger]
        derives(derived, alias.generics, alias.bounds) && texts == definition_texts(alias)
            + implementation_texts(alias, derived)
}

/// Whether `texts` are what is generated for `items`: a fragment for each of them, in the
/// order of the items.
pub open spec fn is_expansion(items: Seq<AliasItem>, texts: Texts) -> bool {
    exists|parts: Seq<Texts>|
        {
            &&& parts.len() == items.len()
            &&& forall|i: int| 0 <= i < items.len() ==> is_fragment(items[i], #[trigger] parts[i])
            &&& texts == #[trigger] concatenated(parts)
        }
}

/// `Path::is_ident` on the path of an attribute, which `Meta::path` hands out: whether that
/// path is the one identifier `name`.
#[verifier::external_body]
fn attribute_is(attribute: &Attribute, name: &str) -> (same: bool)
    ensures
        same == (attribute_name(*attribute) == Some(name@)),
{
    attribute.meta.path().is_ident(name)
}

/// Checks whether the given attribute is [`DOC`].
pub fn is_doc_attribute(attribute: &Attribute) -> (doc: bool)
    ensures
        doc == is_doc(*attribute),
{
    attribute_is(attribute, DOC)
}

/// Returns the blanket implementation documentation.
pub fn blanket_impl_doc(name: &Ident) -> (doc: String)
    ensures
        doc@ == blanket_doc(ident_text(*name)),
{
    let name = ident_string(name);
    let mut doc = String::from_str(BLANKET_START);
    doc.append(name.as_str());
    doc.append(BLANKET_END);
    doc
}

/// Splits attributes into documentation and the rest. Each attribute lands in exactly one of
/// the two, and keeps its place among those that land with it.
pub fn partition(attributes: &Vec<Attribute>) -> (groups: (Vec<Attribute>, Vec<Attribute>))
    ensures
        groups.0@ == documentation(attributes@),
        groups.1@ == annotations(attributes@),
{
    let mut docs: Vec<Attribute> = Vec::new();
    let mut others: Vec<Attribute> = Vec::new();
    let mut index: usize = 0;
    while index < attributes.len()
        invariant
            index <= attributes.len(),
            docs@ == documentation(attributes@.take(index as int)),
            others@ == annotations(attributes@.take(index as int)),
        decreases attributes.len() - index,
    {
        proof {
            let next = attributes@.take(index + 1);
            assert(next.drop_last() == attributes@.take(index as int));
            assert(next.last() == attributes@[index as int]);
        }
        let attribute = attributes[index].clone();
        if is_doc_attribute(&attribute) {
            docs.push(attribute);
        } else {
            others.push(attribute);
        }
        index += 1;
    }
    proof {
        assert(attributes@.take(index as int) == attributes@);
    }
    (docs, others)
}

/// Constructs the generics of the blanket implementation: a copy of `generics` with the
/// parameter `__T` behind the declared parameters and the predicate `__T: bounds + ?Sized`
/// behind the declared predicates.
pub fn derived_generics(generics: &Generics, bounds: &Bounds) -> (derived: Generics)
    ensures
        derives(derived, *generics, *bounds),
{
    let mut derived = generics.clone();

    // add `__T` parameter
    push_parameter(&mut derived, type_parameter());

    // and restrict it with `bounds`, adding `?Sized`
    push_predicate(&mut derived, predicate_type(bounds.clone()));

    derived
}

/// Writes a keyword, or any other word, as an identifier token.
fn append_word(stream: &mut TokenStream, word: &str)
    requires
        is_identifier(word@),
    ensures
        stream_texts(*final(stream)) == stream_texts(*old(stream)).push(word@),
{
    let word = ident_new(word);
    append_ident(stream, &word);
}

/// Writes attributes one after another.
fn append_attributes(stream: &mut TokenStream, attributes: &Vec<Attribute>)
    ensures
        stream_texts(*final(stream)) == stream_texts(*old(stream)) + attributes_texts(
            attributes@,
        ),
{
    let mut index: usize = 0;
    while index < attributes.len()
        invariant
            index <= attributes.len(),
            stream_texts(*stream) == stream_texts(*old(stream)) + attributes_texts(
                attributes@.take(index as int),
            ),
        decreases attributes.len() - index,
    {
        proof {
            let next = attributes@.take(index + 1);
            assert(next.drop_last() == attributes@.take(index as int));
            assert(next.last() == attributes@[index as int]);
        }
        append_attribute(stream, &attributes[index]);
        index += 1;
    }
    proof {
        assert(attributes@.take(index as int) == attributes@);
    }
}

/// Writes `#[doc = "..."]` with the string `text`.
fn append_doc(stream: &mut TokenStream, text: &str)
    ensures
        stream_texts(*final(stream)) == stream_texts(*old(stream)) + doc_attribute_texts(text@),
{
    proof {
        reveal_strlit("doc");
        assert(is_identifier(DOC@));
    }
    let mut inner = stream_new();
    append_word(&mut inner, DOC);
    append_punct(&mut inner, '=');
    append_string(&mut inner, text);

    append_punct(stream, '#');
    append_group(stream, Delimiter::Bracket, inner);
}

/// Generates the trait definition for the given trait alias: a trait of its name, with its
/// parameters and attributes, its bounds as supertraits, and an empty body.
pub fn trait_definition(alias: &AliasItem) -> (tokens: TokenStream)
    ensures
        stream_texts(tokens) == definition_texts(*alias),
{
    let (docs, attributes) = partition(&alias.attrs);

    proof {
        reveal_strlit("trait");
        assert(is_identifier(TRAIT@));
    }
    let mut tokens = stream_new();
    append_attributes(&mut tokens, &docs);
    append_attributes(&mut tokens, &attributes);
    append_visibility(&mut tokens, &alias.vis);
    append_word(&mut tokens, TRAIT);
    append_ident(&mut tokens, &alias.ident);
    append_generics(&mut tokens, &alias.generics);
    append_punct(&mut tokens, ':');
    append_bounds(&mut tokens, &alias.bounds);
    append_where_clause(&mut tokens, &alias.generics);
    append_group(&mut tokens, Delimiter::Brace, stream_new());
    proof {
        lemma_attributes_texts_add(docs@, attributes@);
        assert(stream_texts(tokens) =~= definition_texts(*alias));
    }
    tokens
}

/// Generates the blanket implementation for the given trait alias, with `derived` as its
/// generics: `__T` stands in the header of the `impl` and in its `where` clause, and nowhere in
/// the arguments of the trait, which are the parameters that the alias declares.
pub fn blanket_implementation(alias: &AliasItem, derived: &Generics) -> (tokens: TokenStream)
    ensures
        stream_texts(tokens) == implementation_texts(*alias, *derived),
{
    let (_, attributes) = partition(&alias.attrs);
    let blanket_impl = blanket_impl_doc(&alias.ident);

    proof {
        reveal_strlit("impl");
        reveal_strlit("for");
        assert(is_identifier(IMPL@));
        assert(is_identifier(FOR@));
    }
    let mut tokens = stream_new();
    append_doc(&mut tokens, blanket_impl.as_str());
    append_attributes(&mut tokens, &attributes);
    append_word(&mut tokens, IMPL);
    append_impl_generics(&mut tokens, derived);
    append_ident(&mut tokens, &alias.ident);
    append_type_generics(&mut tokens, &alias.generics);
    append_word(&mut tokens, FOR);
    append_ident(&mut tokens, &identifier());
    append_where_clause(&mut tokens, derived);
    append_group(&mut tokens, Delimiter::Brace, stream_new());
    proof {
        assert(stream_texts(tokens) =~= implementation_texts(*alias, *derived));
    }
    tokens
}

/// Generates the trait definition and blanket implementation for the given trait alias.
pub fn trait_alias(alias: &AliasItem) -> (tokens: TokenStream)
    ensures
        is_fragment(*alias, stream_texts(tokens)),
{
    let derived = derived_generics(&alias.generics, &alias.bounds);

    // output trait definition, then its blanket implementation
    let mut tokens = trait_definition(alias);
    append_stream(&mut tokens, blanket_implementation(alias, &derived));
    proof {
        assert(derives(derived, alias.generics, alias.bounds));
    }
    tokens
}

/// Generates trait aliases for the input.
///
/// This function calls [`trait_alias`] for each item in [`TraitAliases`] and combines the outputs.
pub fn trait_aliases(input: &TraitAliases) -> (tokens: TokenStream)
    ensures
        is_expansion(input.items@, stream_texts(tokens)),
{
    let mut tokens = stream_new();
    let ghost mut parts: Seq<Texts> = Seq::empty();
    let mut index: usize = 0;
    while index < input.items.len()
        invariant
            index <= input.items.len(),
            parts.len() == index,
            forall|i: int| 0 <= i < index ==> is_fragment(input.items@[i], #[trigger] parts[i]),
            stream_texts(tokens) == concatenated(parts),
        decreases input.items.len() - index,
    {
        let alias = trait_alias(&input.items[index]);
        proof {
            let part = stream_texts(alias);
            assert(parts.push(part).drop_last() == parts);
            parts = parts.push(part);
        }
        append_stream(&mut tokens, alias);
        index += 1;
    }
    tokens
}

/// Attributes are split, not filtered: the documentation among them stands on the generated
/// trait and never on the blanket implementation, and every other attribute stands on both;
/// each as often as it was declared, so once where it was declared once.
pub proof fn lemma_attribute_fidelity(attributes: Seq<Attribute>, attribute: Attribute)
    ensures
        times(definition_attributes(attributes), attribute) == times(attributes, attribute),
        times(implementation_attributes(attributes), attribute) == if is_doc(attribute) {
            0
        } else {
            times(attributes, attribute)
        },
        times(documentation(attributes), attribute) == if is_doc(attribute) {
            times(attributes, attribute)
        } else {
            0
        },
    decreases attributes.len(),
{
    lemma_times_add(documentation(attributes), annotations(attributes), attribute);
    if attributes.len() > 0 {
        let rest = attributes.drop_last();
        lemma_attribute_fidelity(rest, attribute);
        lemma_times_add(documentation(rest), annotations(rest), attribute);
        if is_doc(attributes.last()) {
            assert(documentation(attributes).drop_last() == documentation(rest));
        } else {
            assert(annotations(attributes).drop_last() == annotations(rest));
        }
    }
}

/// The parts of a split keep their order: both the documentation and the other attributes
/// stand among themselves as they stood among all.
pub proof fn lemma_partition_keeps_order(first: Seq<Attribute>, second: Seq<Attribute>)
    ensures
        documentation(first + second) == documentation(first) + documentation(second),
        annotations(first + second) == annotations(first) + annotations(second),
    decreases second.len(),
{
    if second.len() == 0 {
        assert(first + second == first);
    } else {
        assert((first + second).drop_last() == first + second.drop_last());
        lemma_partition_keeps_order(first, second.drop_last());
    }
}

/// Declarations are expanded in their order: what is generated for two runs of declarations
/// taken together is what is generated for the first, then what is generated for the second.
/// So the code for an alias stands behind the code for every alias declared before it.
pub proof fn lemma_expansion_follows_order(
    first: Seq<AliasItem>,
    second: Seq<AliasItem>,
    first_texts: Texts,
    second_texts: Texts,
)
    requires
        is_expansion(first, first_texts),
        is_expansion(second, second_texts),
    ensures
        is_expansion(first + second, first_texts + second_texts),
{
    let first_parts = choose|parts: Seq<Texts>|
        {
            &&& parts.len() == first.len()
            &&& forall|i: int| 0 <= i < first.len() ==> is_fragment(first[i], #[trigger] parts[i])
            &&& first_texts == #[trigger] concatenated(parts)
        };
    let second_parts = choose|parts: Seq<Texts>|
        {
            &&& parts.len() == second.len()
            &&& forall|i: int|
                0 <= i < second.len() ==> is_fragment(second[i], #[trigger] parts[i])
            &&& second_texts == #[trigger] concatenated(parts)
        };
    let items = first + second;
    let parts = first_parts + second_parts;
    lemma_concatenated_add(first_parts, second_parts);
    assert forall|i: int| 0 <= i < items.len() implies is_fragment(items[i], #[trigger] parts[i]) by {
        if i < first.len() {
            assert(is_fragment(first[i], first_parts[i]));
        } else {
            assert(is_fragment(second[i - first.len()], second_parts[i - first.len()]));
        }
    }
    assert(first_texts + second_texts == concatenated(parts));
}

/// An attribute stands in two runs taken together as often as in the first and in the second.
proof fn lemma_times_add(first: Seq<Attribute>, second: Seq<Attribute>, attribute: Attribute)
    ensures
        times(first + second, attribute) == times(first, attribute) + times(second, attribute),
    decreases second.len(),
{
    if second.len() == 0 {
        assert(first + second == first);
    } else {
        assert((first + second).drop_last() == first + second.drop_last());
        lemma_times_add(first, second.drop_last(), attribute);
    }
}

/// The texts of two runs of attributes are the texts of the first, then those of the second.
proof fn lemma_attributes_texts_add(first: Seq<Attribute>, second: Seq<Attribute>)
    ensures
        attributes_texts(first + second) == attributes_texts(first) + attributes_texts(second),
    decreases second.len(),
{
    if second.len() == 0 {
        assert(first + second == first);
    } else {
        assert((first + second).drop_last() == first + second.drop_last());
        lemma_attributes_texts_add(first, second.drop_last());
    }
}

} // verus!
