//! What `syn` writes for a syntax tree node, and what its collections hold.
//!
//! Each node is written by its `ToTokens` impl. The library never looks inside a node that the
//! user declared; it passes the node on and lets `syn` write it. What the contracts need is a
//! name for the texts that come out, one per kind of node, and for the nodes of a punctuated
//! sequence the texts of each.
//!
//! The functions marked `external_body` call `syn` and `quote`. Their contracts say what the
//! sources of those crates show, and are not proved here.

use crate::tokens::{joined, stream_texts, Texts};
use proc_macro2::TokenStream;
use syn::punctuated::Punctuated;
use syn::token::Plus;
use syn::{
    Attribute, Generics, Path, PredicateType, TraitBound, TypeParam, TypeParamBound, TypePath,
    Visibility,
};
use vstd::prelude::*;

verus! {

/// Represents type parameter bounds.
pub type Bounds = Punctuated<TypeParamBound, Plus>;

/// The literal `where` keyword.
pub const WHERE: &'static str = "where";

/// The texts that `to_tokens` writes for an attribute: `#`, a `!` if it is an inner attribute,
/// `[`, what stands between the brackets, `]`.
pub uninterp spec fn attribute_texts(attribute: Attribute) -> Texts;

/// The texts that `to_tokens` writes for a visibility; none for an inherited one.
pub uninterp spec fn visibility_texts(visibility: Visibility) -> Texts;

/// The texts that `to_tokens` writes for `Generics`: the parameters as declared, bounds and
/// defaults included, between `<` and `>`; none where there is no parameter. The `where`
/// clause is not part of them.
pub uninterp spec fn generics_texts(generics: Generics) -> Texts;

/// The texts that `to_tokens` writes for the first part of `Generics::split_for_impl`: the
/// parameters as the header of an `impl` takes them, with their bounds and without defaults.
pub uninterp spec fn impl_generics_texts(generics: Generics) -> Texts;

/// The texts that `to_tokens` writes for the second part of `Generics::split_for_impl`: the
/// names of the parameters, as arguments of the type or trait that declared them.
pub uninterp spec fn type_generics_texts(generics: Generics) -> Texts;

/// The texts that `to_tokens` writes for the `where` clause of `Generics`, the third part of
/// `Generics::split_for_impl`; none where there is no clause or it has no predicate.
pub uninterp spec fn where_clause_texts(generics: Generics) -> Texts;

/// The texts that `to_tokens` writes for a sequence of bounds: each bound, and each `+` that
/// the sequence holds.
pub uninterp spec fn bounds_texts(bounds: Bounds) -> Texts;

/// The texts that `to_tokens` writes for a path.
pub uninterp spec fn path_texts(path: Path) -> Texts;

/// The texts that `to_tokens` writes for a path used as a type.
pub uninterp spec fn type_path_texts(path: TypePath) -> Texts;

/// The texts that `to_tokens` writes for a type parameter: attributes, name, bounds, default.
pub uninterp spec fn type_param_texts(parameter: TypeParam) -> Texts;

/// The texts that `to_tokens` writes for a trait bound.
pub uninterp spec fn trait_bound_texts(bound: TraitBound) -> Texts;

/// The texts that `to_tokens` writes for a predicate on a type: the lifetimes that a `for`
/// binds, if any, the type, `:`, the bounds.
pub uninterp spec fn predicate_texts(predicate: PredicateType) -> Texts;

/// What a sequence of bounds holds: the texts that `to_tokens` writes for each bound, in order.
pub uninterp spec fn bounds_items(bounds: Bounds) -> Seq<Texts>;

/// The parameters that `Generics` holds: the texts that `to_tokens` writes for each, with its
/// bounds and its default, in the order in which the parameters were declared.
pub uninterp spec fn generics_parameters(generics: Generics) -> Seq<Texts>;

/// The predicates of the `where` clause of `Generics`: the texts that `to_tokens` writes for
/// each, in order; none where there is no clause.
pub uninterp spec fn generics_predicates(generics: Generics) -> Seq<Texts>;

/// `to_tokens` of an `Attribute`.
#[verifier::external_body]
pub(crate) fn append_attribute(stream: &mut TokenStream, attribute: &Attribute)
    ensures
        stream_texts(*final(stream)) == stream_texts(*old(stream)) + attribute_texts(*attribute),
{
    quote::ToTokens::to_tokens(attribute, stream)
}

/// `to_tokens` of a `Visibility`.
#[verifier::external_body]
pub(crate) fn append_visibility(stream: &mut TokenStream, visibility: &Visibility)
    ensures
        stream_texts(*final(stream)) == stream_texts(*old(stream)) + visibility_texts(
            *visibility,
        ),
{
    quote::ToTokens::to_tokens(visibility, stream)
}

/// `to_tokens` of `Generics`.
#[verifier::external_body]
pub(crate) fn append_generics(stream: &mut TokenStream, generics: &Generics)
    ensures
        stream_texts(*final(stream)) == stream_texts(*old(stream)) + generics_texts(*generics),
{
    quote::ToTokens::to_tokens(generics, stream)
}

/// `Generics::split_for_impl`, and `to_tokens` of its first part.
#[verifier::external_body]
pub(crate) fn append_impl_generics(stream: &mut TokenStream, generics: &Generics)
    ensures
        stream_texts(*final(stream)) == stream_texts(*old(stream)) + impl_generics_texts(
            *generics,
        ),
{
    let (impl_generics, _, _) = generics.split_for_impl();
    quote::ToTokens::to_tokens(&impl_generics, stream)
}

/// `Generics::split_for_impl`, and `to_tokens` of its second part.
#[verifier::external_body]
pub(crate) fn append_type_generics(stream: &mut TokenStream, generics: &Generics)
    ensures
        stream_texts(*final(stream)) == stream_texts(*old(stream)) + type_generics_texts(
            *generics,
        ),
{
    let (_, type_generics, _) = generics.split_for_impl();
    quote::ToTokens::to_tokens(&type_generics, stream)
}

/// `Generics::split_for_impl`, and `to_tokens` of its third part.
#[verifier::external_body]
pub(crate) fn append_where_clause(stream: &mut TokenStream, generics: &Generics)
    ensures
        stream_texts(*final(stream)) == stream_texts(*old(stream)) + where_clause_texts(
            *generics,
        ),
{
    let (_, _, where_clause) = generics.split_for_impl();
    quote::ToTokens::to_tokens(&where_clause, stream)
}

/// `to_tokens` of a punctuated sequence of bounds.
#[verifier::external_body]
pub(crate) fn append_bounds(stream: &mut TokenStream, bounds: &Bounds)
    ensures
        stream_texts(*final(stream)) == stream_texts(*old(stream)) + bounds_texts(*bounds),
{
    quote::ToTokens::to_tokens(bounds, stream)
}

/// `Punctuated::push` of a trait bound. It puts a `+` behind the last bound unless one stands
/// there, then the new bound: the sequence holds one bound more and ends without punctuation,
/// so what is written for it is its bounds with a `+` between each two.
#[verifier::external_body]
pub(crate) fn push_bound(bounds: &mut Bounds, bound: TraitBound)
    ensures
        bounds_items(*final(bounds)) == bounds_items(*old(bounds)).push(trait_bound_texts(bound)),
        bounds_texts(*final(bounds)) == joined(bounds_items(*final(bounds)), seq!['+']),
{
    bounds.push(TypeParamBound::Trait(bound))
}

/// `Punctuated::push` of a type parameter onto the parameters of `Generics`. The `where`
/// clause is left as it was.
#[verifier::external_body]
pub(crate) fn push_parameter(generics: &mut Generics, parameter: TypeParam)
    ensures
        generics_parameters(*final(generics)) == generics_parameters(*old(generics)).push(
            type_param_texts(parameter),
        ),
        generics_predicates(*final(generics)) == generics_predicates(*old(generics)),
{
    generics.params.push(syn::GenericParam::Type(parameter))
}

/// `Generics::make_where_clause`, which makes an empty `where` clause where there is none, and
/// `Punctuated::push` of a predicate onto its predicates. The parameters are left as they
/// were. The clause then ends without punctuation, so what is written for it is `where` and
/// its predicates with a `,` between each two.
#[verifier::external_body]
pub(crate) fn push_predicate(generics: &mut Generics, predicate: PredicateType)
    ensures
        generics_parameters(*final(generics)) == generics_parameters(*old(generics)),
        generics_predicates(*final(generics)) == generics_predicates(*old(generics)).push(
            predicate_texts(predicate),
        ),
        where_clause_texts(*final(generics)) == seq![WHERE@] + joined(
            generics_predicates(*final(generics)),
            seq![','],
        ),
{
    generics.make_where_clause().predicates.push(syn::WherePredicate::Type(predicate))
}

} // verus!
