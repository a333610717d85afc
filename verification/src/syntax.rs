//! The syntax tree that the library works on.
//!
//! Declarations are parsed by `syn` and stay `syn` values all the way to the generated tokens.
//! Verus sees none of their insides: each type below is declared opaque, and everything the
//! library knows about a value comes from the contract of a function that made or read it.

use vstd::prelude::*;

verus! {

/// `proc_macro2::Ident`, which `syn` re-exports: a word of the source, with its span.
#[verifier::external_type_specification]
#[verifier::external_body]
pub struct ExIdent(proc_macro2::Ident);

/// `proc_macro2::Span`: the place in the source that a token comes from.
#[verifier::external_type_specification]
#[verifier::external_body]
pub struct ExSpan(proc_macro2::Span);

/// `proc_macro2::TokenStream`: a sequence of tokens.
#[verifier::external_type_specification]
#[verifier::external_body]
pub struct ExTokenStream(proc_macro2::TokenStream);

/// `syn::Attribute`: one `#[...]` annotation, documentation comments included.
#[verifier::external_type_specification]
#[verifier::external_body]
pub struct ExAttribute(syn::Attribute);

/// `syn::Visibility`: `pub`, `pub(crate)`, ... or nothing.
#[verifier::external_type_specification]
#[verifier::external_body]
pub struct ExVisibility(syn::Visibility);

/// `syn::Generics`: the parameters between `<` and `>` together with the `where` clause.
#[verifier::external_type_specification]
#[verifier::external_body]
pub struct ExGenerics(syn::Generics);

/// `syn::TypeParam`: a type parameter with its bounds and default.
#[verifier::external_type_specification]
#[verifier::external_body]
pub struct ExTypeParam(syn::TypeParam);

/// `syn::PredicateType`: a `where` predicate that bounds a type.
#[verifier::external_type_specification]
#[verifier::external_body]
pub struct ExPredicateType(syn::PredicateType);

/// `syn::TypeParamBound`: one trait or lifetime bound.
#[verifier::external_type_specification]
#[verifier::external_body]
pub struct ExTypeParamBound(syn::TypeParamBound);

/// `syn::TraitBound`: a bound that names a trait, `?Trait` included.
#[verifier::external_type_specification]
#[verifier::external_body]
pub struct ExTraitBound(syn::TraitBound);

/// `syn::Path`: `a::b::c`, possibly with generic arguments.
#[verifier::external_type_specification]
#[verifier::external_body]
pub struct ExPath(syn::Path);

/// `syn::TypePath`: a path used as a type.
#[verifier::external_type_specification]
#[verifier::external_body]
pub struct ExTypePath(syn::TypePath);

/// `syn::Error`: one or more messages, each tied to a span.
#[verifier::external_type_specification]
#[verifier::external_body]
pub struct ExError(syn::Error);

/// `syn::token::Plus`: the `+` between bounds.
#[verifier::external_type_specification]
#[verifier::external_body]
pub struct ExPlus(syn::token::Plus);

/// `syn::punctuated::Punctuated`: syntax tree nodes separated by punctuation.
#[verifier::external_type_specification]
#[verifier::external_body]
#[verifier::reject_recursive_types(T)]
#[verifier::reject_recursive_types(P)]
pub struct ExPunctuated<T, P>(syn::punctuated::Punctuated<T, P>);

/// `Clone` for `proc_macro2::Ident` copies name and span: the copy is the same identifier.
pub assume_specification[ <proc_macro2::Ident as Clone>::clone ](word: &proc_macro2::Ident) -> (copy:
    proc_macro2::Ident)
    ensures
        copy == *word,
;

/// `Clone` for `syn::Attribute` copies every field: the copy is the same attribute.
pub assume_specification[ <syn::Attribute as Clone>::clone ](attribute: &syn::Attribute) -> (copy:
    syn::Attribute)
    ensures
        copy == *attribute,
;

/// `Clone` for `syn::Generics` copies every field: the copy is the same list and clause.
pub assume_specification[ <syn::Generics as Clone>::clone ](generics: &syn::Generics) -> (copy:
    syn::Generics)
    ensures
        copy == *generics,
;

/// `Clone` for `Punctuated` copies every node and every punctuation mark.
pub assume_specification<T: Clone, P: Clone>[ <syn::punctuated::Punctuated<T, P> as Clone>::clone ](
    sequence: &syn::punctuated::Punctuated<T, P>,
) -> (copy: syn::punctuated::Punctuated<T, P>)
    ensures
        copy == *sequence,
;

} // verus!
