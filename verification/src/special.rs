//! Functionality related to the special `__T` identifier.

use crate::parse::AliasItem;
use crate::printing::{
    bounds_items, bounds_texts, path_texts, predicate_texts, push_bound, trait_bound_texts,
    type_param_texts, type_path_texts, Bounds,
};
use crate::tokens::{ident_is, ident_new, ident_text, is_identifier, joined, Texts};
use proc_macro2::{Ident, Span};
use syn::visit::Visit;
use syn::{Error, Path, PredicateType, TraitBound, TypeParam, TypePath};
use vstd::prelude::*;

verus! {

/// Literal [`Sized`] string.
pub const SIZED: &'static str = "Sized";

/// Literal `__T` string, used for blanket implementations.
pub const SPECIAL: &'static str = "__T";

/// The message used for errors on `__T` detected when parsing.
pub const MESSAGE: &'static str = "identifier `__T` is reserved for blanket implementations";

/// The messages that an error holds, in the order in which they were combined.
pub uninterp spec fn error_messages(error: Error) -> Seq<Seq<char>>;

/// The spans that the messages of an error point at, one for each message, in their order:
/// for each message, the span of the first of the tokens that it was made for.
pub uninterp spec fn error_spans(error: Error) -> Seq<Span>;

/// The span of an identifier, as `Ident::span` gives it: where the identifier stands.
pub uninterp spec fn ident_span(identifier: Ident) -> Span;

/// The identifiers that `syn::visit::visit_item_trait_alias` visits in the trait alias made
/// of the parts of `alias`, in the order in which it visits them: those of the attributes, of
/// the visibility, the name, those of the generics with their `where` clause, and those of the
/// bounds. The names of lifetimes are among them. Tokens that `syn` keeps unparsed, such as
/// the arguments of a macro or of an attribute like `#[cfg(...)]`, are not looked into.
pub uninterp spec fn alias_identifiers(alias: AliasItem) -> Seq<Ident>;

/// Whether `name` is the reserved identifier: the very name, not a name that contains it.
pub open spec fn is_reserved(name: Seq<char>) -> bool {
    name == SPECIAL@
}

/// The spans of those of `identifiers` that are the reserved identifier, in their order.
pub open spec fn occurrences(identifiers: Seq<Ident>) -> Seq<Span>
    decreases identifiers.len(),
{
    if identifiers.len() == 0 {
        Seq::empty()
    } else if is_reserved(ident_text(identifiers.last())) {
        occurrences(identifiers.drop_last()).push(ident_span(identifiers.last()))
    } else {
        occurrences(identifiers.drop_last())
    }
}

/// What a checker has found after it met `identifier`, when it had found `found` before.
pub open spec fn found_after(found: Seq<Span>, identifier: Ident) -> Seq<Span> {
    if is_reserved(ident_text(identifier)) {
        found.push(ident_span(identifier))
    } else {
        found
    }
}

/// What a checker has found after it met `identifiers`, one after another.
pub open spec fn found_after_all(found: Seq<Span>, identifiers: Seq<Ident>) -> Seq<Span>
    decreases identifiers.len(),
{
    if identifiers.len() == 0 {
        found
    } else {
        found_after(found_after_all(found, identifiers.drop_last()), identifiers.last())
    }
}

/// The messages of the error that reports `count` occurrences: [`MESSAGE`], once for each.
pub open spec fn reports(count: nat) -> Seq<Seq<char>> {
    Seq::new(count, |i: int| MESSAGE@)
}

/// Whether `error` reports the occurrences at `found`, and there is one at least: it holds
/// [`MESSAGE`] once for each of them, pointing at it.
pub open spec fn rejects(error: Error, found: Seq<Span>) -> bool {
    &&& found.len() > 0
    &&& error_spans(error) == found
    &&& error_messages(error) == reports(found.len())
}

/// The texts of the predicate that bounds `__T` by `bounds` and, last of all, by `?Sized`.
pub open spec fn reserved_predicate(bounds: Seq<Texts>) -> Texts {
    seq![SPECIAL@, seq![':']] + joined(bounds.push(seq![seq!['?'], SIZED@]), seq!['+'])
}

/// `Error::new_spanned`: an error of one message, which points at the identifier.
#[verifier::external_body]
fn error_new_spanned(identifier: &Ident, message: &str) -> (error: Error)
    ensures
        error_messages(error) == seq![message@],
        error_spans(error) == seq![ident_span(*identifier)],
{
    Error::new_spanned(identifier, message)
}

/// `Error::combine`: the messages of `another` are added behind those of `error`, each with
/// its span.
#[verifier::external_body]
fn error_combine(error: &mut Error, another: Error)
    ensures
        error_messages(*final(error)) == error_messages(*old(error)) + error_messages(another),
        error_spans(*final(error)) == error_spans(*old(error)) + error_spans(another),
{
    error.combine(another)
}

/// Collects the identifiers of a syntax tree, in the order in which they are visited.
struct Identifiers {
    found: Vec<Ident>,
}

impl View for Identifiers {
    type V = Seq<Ident>;

    /// The identifiers collected so far, the first one first.
    closed spec fn view(&self) -> Seq<Ident> {
        self.found@
    }
}

/// The visitor that `syn` walks a syntax tree with: of all that it is shown, it keeps the
/// identifiers.
impl<'ast> Visit<'ast> for Identifiers {
    /// Keeps a copy of the identifier behind those it has kept before.
    fn visit_ident(&mut self, identifier: &'ast Ident)
        ensures
            final(self)@ == old(self)@.push(*identifier),
    {
        self.found.push(identifier.clone());
    }
}

/// `syn::visit::visit_item_trait_alias` over a `syn::ItemTraitAlias` made of copies of the
/// parts of `alias`, with [`Identifiers`] as the visitor: it hands back the identifiers that
/// the visitor was shown, in the order of the visit.
#[verifier::external_body]
fn identifiers(alias: &AliasItem) -> (found: Vec<Ident>)
    ensures
        found@ == alias_identifiers(*alias),
{
    let item = syn::ItemTraitAlias {
        attrs: alias.attrs.clone(),
        vis: alias.vis.clone(),
        trait_token: Default::default(),
        ident: alias.ident.clone(),
        generics: alias.generics.clone(),
        eq_token: Default::default(),
        bounds: alias.bounds.clone(),
        semi_token: Default::default(),
    };
    let mut visitor = Identifiers { found: Vec::new() };
    visitor.visit_item_trait_alias(&item);
    visitor.found
}

/// Represents checkers which traverse syntax trees searching for `__T` identifiers.
pub struct Checker {
    error: Option<Error>,
}

impl Checker {
    /// The error, where there is one, holds [`MESSAGE`] once for each occurrence found.
    #[verifier::type_invariant]
    spec fn well_formed(self) -> bool {
        self.error matches Some(error) ==> rejects(error, error_spans(error))
    }

    /// The occurrences of `__T` that the checker has found: the span of each, in the order
    /// in which it met them.
    pub closed spec fn found(self) -> Seq<Span> {
        match self.error {
            Some(error) => error_spans(error),
            None => Seq::empty(),
        }
    }

    /// Constructs [`Self`].
    pub fn new() -> (checker: Self)
        ensures
            checker.found() == Seq::<Span>::empty(),
    {
        Self { error: None }
    }

    /// Constructs new [`Error`] spanned by the given identifier, then adds it to [`Self`].
    pub fn error(&mut self, identifier: &Ident)
        ensures
            final(self).found() == old(self).found().push(ident_span(*identifier)),
    {
        proof {
            use_type_invariant(&*self);
        }
        let error = error_new_spanned(identifier, MESSAGE);
        let mut found: Option<Error> = None;
        core::mem::swap(&mut self.error, &mut found);
        match found {
            Some(mut combined) => {
                error_combine(&mut combined, error);
                assert(error_messages(combined) =~= reports(error_spans(combined).len()));
                self.error = Some(combined);
            },
            None => {
                assert(error_messages(error) =~= reports(1));
                self.error = Some(error);
            },
        }
    }

    /// Returns the (combined) error, if one was found.
    pub fn check_error(self) -> (error: Option<Error>)
        ensures
            match error {
                Some(error) => rejects(error, self.found()),
                None => self.found().len() == 0,
            },
    {
        proof {
            use_type_invariant(&self);
        }
        self.error
    }

    /// Similar to [`check_error`], except [`Result`] is returned.
    ///
    /// # Errors
    ///
    /// Returns [`Error`] if `__T` was found in the syntax tree.
    ///
    /// [`check_error`]: Self::check_error
    pub fn check(self) -> (result: Result<(), Error>)
        ensures
            match result {
                Ok(_) => self.found().len() == 0,
                Err(error) => rejects(error, self.found()),
            },
    {
        match self.check_error() {
            Some(error) => Err(error),
            None => Ok(()),
        }
    }

    /// Looks at one identifier of a syntax tree: an error is added if, and only if, it is `__T`.
    pub fn visit_ident(&mut self, identifier: &Ident)
        ensures
            final(self).found() == found_after(old(self).found(), *identifier),
    {
        if ident_is(identifier, SPECIAL) {
            self.error(identifier);
        }
    }

    /// Looks at every identifier of a trait alias, wherever in it the identifier stands, and
    /// goes on to the end whatever it finds.
    pub fn visit_item_trait_alias(&mut self, alias: &AliasItem)
        ensures
            final(self).found() == old(self).found() + occurrences(alias_identifiers(*alias)),
    {
        let identifiers = identifiers(alias);
        let mut index: usize = 0;
        while index < identifiers.len()
            invariant
                index <= identifiers.len(),
                self.found() == found_after_all(
                    old(self).found(),
                    identifiers@.take(index as int),
                ),
            decreases identifiers.len() - index,
        {
            proof {
                let next = identifiers@.take(index + 1);
                assert(next.drop_last() == identifiers@.take(index as int));
                assert(next.last() == identifiers@[index as int]);
            }
            self.visit_ident(&identifiers[index]);
            index += 1;
        }
        proof {
            assert(identifiers@.take(index as int) == identifiers@);
            lemma_every_occurrence_found(old(self).found(), identifiers@);
        }
    }
}

/// A checker finds every occurrence: what it has found after it met `identifiers` is what it
/// had found before, and then the span of each of them that is `__T`, in their order.
pub proof fn lemma_every_occurrence_found(found: Seq<Span>, identifiers: Seq<Ident>)
    ensures
        found_after_all(found, identifiers) == found + occurrences(identifiers),
    decreases identifiers.len(),
{
    if identifiers.len() > 0 {
        lemma_every_occurrence_found(found, identifiers.drop_last());
    }
}

/// Occurrences add up over declarations: those of two runs of identifiers taken together are
/// those of the first, then those of the second.
pub proof fn lemma_occurrences_add(first: Seq<Ident>, second: Seq<Ident>)
    ensures
        occurrences(first + second) == occurrences(first) + occurrences(second),
    decreases second.len(),
{
    if second.len() == 0 {
        assert(first + second == first);
    } else {
        assert((first + second).drop_last() == first + second.drop_last());
        lemma_occurrences_add(first, second.drop_last());
    }
}

/// There is an occurrence if, and only if, one of the identifiers is `__T`, whatever its
/// place among them; and there are never more occurrences than identifiers.
pub proof fn lemma_occurrences_present(identifiers: Seq<Ident>)
    ensures
        occurrences(identifiers).len() > 0 <==> exists|i: int|
            0 <= i < identifiers.len() && is_reserved(#[trigger] ident_text(identifiers[i])),
        occurrences(identifiers).len() <= identifiers.len(),
    decreases identifiers.len(),
{
    if identifiers.len() > 0 {
        let rest = identifiers.drop_last();
        lemma_occurrences_present(rest);
        if is_reserved(ident_text(identifiers.last())) {
            assert(is_reserved(ident_text(identifiers[identifiers.len() - 1])));
        } else if occurrences(rest).len() > 0 {
            let i = choose|i: int| 0 <= i < rest.len() && is_reserved(#[trigger] ident_text(rest[i]));
            assert(is_reserved(ident_text(identifiers[i])));
        } else {
            assert forall|i: int| 0 <= i < identifiers.len() implies !is_reserved(
                #[trigger] ident_text(identifiers[i]),
            ) by {
                if i < rest.len() {
                    assert(identifiers[i] == rest[i]);
                }
            }
        }
    }
}

/// The reserved predicate keeps the declared bounds in their order, with a `+` behind each,
/// and ends with `?Sized`, whatever the bounds are.
pub proof fn lemma_unsized_allowance_last(bounds: Seq<Texts>)
    ensures
        reserved_predicate(bounds) == seq![SPECIAL@, seq![':']] + (if bounds.len() == 0 {
            Seq::<Seq<char>>::empty()
        } else {
            joined(bounds, seq!['+']).push(seq!['+'])
        }) + seq![seq!['?'], SIZED@],
{
    let extended = bounds.push(seq![seq!['?'], SIZED@]);
    assert(extended.drop_last() == bounds);
    if bounds.len() == 0 {
        assert(joined(extended, seq!['+']) == extended[0]);
    }
}

/// Returns the special `__T` identifier.
pub fn identifier() -> (identifier: Ident)
    ensures
        ident_text(identifier) == SPECIAL@,
{
    proof {
        reveal_strlit("__T");
        assert(is_identifier(SPECIAL@));
    }
    ident_new(SPECIAL)
}

/// Returns the [`Sized`] identifier.
pub fn sized_identifier() -> (identifier: Ident)
    ensures
        ident_text(identifier) == SIZED@,
{
    proof {
        reveal_strlit("Sized");
        assert(is_identifier(SIZED@));
    }
    ident_new(SIZED)
}

/// Constructs [`Path`] for the given identifier.
///
/// The path is built as a `syn::Path` without a leading `::`, whose one segment is made of the
/// identifier and `PathArguments::None`. `to_tokens` writes the identifier for it and no more.
#[verifier::external_body]
pub fn path_for(identifier: Ident) -> (path: Path)
    ensures
        path_texts(path) == seq![ident_text(identifier)],
{
    let mut segments = syn::punctuated::Punctuated::new();

    segments.push(syn::PathSegment { ident: identifier, arguments: syn::PathArguments::None });

    Path { leading_colon: None, segments }
}

/// Constructs [`Path`] for `__T`.
pub fn path() -> (path: Path)
    ensures
        path_texts(path) == seq![SPECIAL@],
{
    path_for(identifier())
}

/// Constructs [`Path`] for [`Sized`].
pub fn sized_path() -> (path: Path)
    ensures
        path_texts(path) == seq![SIZED@],
{
    path_for(sized_identifier())
}

/// A `syn::TypePath` of `path` and no qualified self type. `to_tokens` writes the path for it.
#[verifier::external_body]
fn type_path_of(path: Path) -> (type_path: TypePath)
    ensures
        type_path_texts(type_path) == path_texts(path),
{
    TypePath { qself: None, path }
}

/// Constructs [`TypePath`] for `__T`.
pub fn type_path() -> (type_path: TypePath)
    ensures
        type_path_texts(type_path) == seq![SPECIAL@],
{
    type_path_of(path())
}

/// A `syn::TypeParam` of the identifier alone: no attribute, no bound, no default. `to_tokens`
/// writes the identifier for it and no more.
#[verifier::external_body]
fn type_parameter_of(identifier: Ident) -> (parameter: TypeParam)
    ensures
        type_param_texts(parameter) == seq![ident_text(identifier)],
{
    TypeParam {
        attrs: Vec::new(),
        ident: identifier,
        colon_token: None,
        bounds: syn::punctuated::Punctuated::new(),
        eq_token: None,
        default: None,
    }
}

/// Constructs type parameter for `__T`.
///
/// It has no bounds, which are added in a `where` predicate, and no default.
pub fn type_parameter() -> (parameter: TypeParam)
    ensures
        type_param_texts(parameter) == seq![SPECIAL@],
{
    type_parameter_of(identifier())
}

/// A `syn::TraitBound` of `path` with the modifier `?`, without parentheses and without
/// lifetimes. `to_tokens` writes `?` and the path for it.
#[verifier::external_body]
fn maybe_bound(path: Path) -> (bound: TraitBound)
    ensures
        trait_bound_texts(bound) == seq![seq!['?']] + path_texts(path),
{
    TraitBound {
        paren_token: None,
        modifier: syn::TraitBoundModifier::Maybe(syn::token::Question::default()),
        lifetimes: None,
        path,
    }
}

/// Constructs [`?Sized`] bound.
///
/// [`?Sized`]: Sized
pub fn maybe_sized_bound() -> (bound: TraitBound)
    ensures
        trait_bound_texts(bound) == seq![seq!['?'], SIZED@],
{
    maybe_bound(sized_path())
}

/// A `syn::PredicateType` that bounds the type `subject` by `bounds`, without lifetimes.
/// `to_tokens` writes the type, `:` and the bounds for it.
#[verifier::external_body]
fn predicate_of(subject: TypePath, bounds: Bounds) -> (predicate: PredicateType)
    ensures
        predicate_texts(predicate) == type_path_texts(subject).push(seq![':']) + bounds_texts(
            bounds,
        ),
{
    PredicateType {
        lifetimes: None,
        bounded_ty: syn::Type::Path(subject),
        colon_token: syn::token::Colon::default(),
        bounds,
    }
}

/// Constructs predicate type for `__T`, constraining it with the provided bounds.
///
/// The [`?Sized`] bound is added in the process, behind the bounds provided.
///
/// [`?Sized`]: Sized
pub fn predicate_type(bounds: Bounds) -> (predicate: PredicateType)
    ensures
        predicate_texts(predicate) == reserved_predicate(bounds_items(bounds)),
{
    let mut bounds = bounds;
    push_bound(&mut bounds, maybe_sized_bound());

    predicate_of(type_path(), bounds)
}

} // verus!
