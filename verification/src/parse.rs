//! The declarations handed to the generator.

use crate::printing::Bounds;
use crate::special::{
    alias_identifiers, lemma_occurrences_add, occurrences, rejects, Checker,
};
use proc_macro2::Ident;
use syn::{Attribute, Error, Generics, Visibility};
use vstd::prelude::*;

verus! {

/// One declaration `trait Name<...> = Bound + Bound where ...;`, split into its parts.
///
/// These are the parts of a `syn::ItemTraitAlias` that the generated code is made of, under
/// the names that `syn` gives them. The `where` clause of the declaration is part of `generics`.
pub struct AliasItem {
    /// The annotations in front of the declaration, documentation comments included.
    pub attrs: Vec<Attribute>,
    /// The visibility of the alias.
    pub vis: Visibility,
    /// The name of the alias.
    pub ident: Ident,
    /// The generic parameters of the alias and its `where` clause.
    pub generics: Generics,
    /// The bounds that the alias stands for.
    pub bounds: Bounds,
}

/// The identifiers of declarations, those of the first declaration first.
pub open spec fn batch_identifiers(items: Seq<AliasItem>) -> Seq<Ident>
    decreases items.len(),
{
    if items.len() == 0 {
        Seq::empty()
    } else {
        batch_identifiers(items.drop_last()) + alias_identifiers(items.last())
    }
}

/// Represents the input to [`trait_aliases!`].
///
/// [`trait_aliases!`]: crate::trait_aliases
pub struct TraitAliases {
    /// The trait alias items.
    pub items: Vec<AliasItem>,
}

impl TraitAliases {
    /// Constructs [`Self`].
    pub fn new(items: Vec<AliasItem>) -> (input: Self)
        ensures
            input.items == items,
    {
        Self { items }
    }

    /// Constructs [`Self`] from items, unless `__T` is found in them.
    ///
    /// The items are checked as a whole: one occurrence in one item rejects them all, and
    /// every occurrence in every item is reported.
    ///
    /// # Errors
    ///
    /// Returns the combined [`Error`] if `__T` was found anywhere.
    pub fn checked(items: Vec<AliasItem>) -> (result: Result<Self, Error>)
        ensures
            match result {
                Ok(input) => input.items == items && occurrences(batch_identifiers(items@)).len()
                    == 0,
                Err(error) => rejects(error, occurrences(batch_identifiers(items@))),
            },
    {
        let mut checker = Checker::new();

        let mut index: usize = 0;
        while index < items.len()
            invariant
                index <= items.len(),
                checker.found() == occurrences(batch_identifiers(items@.take(index as int))),
            decreases items.len() - index,
        {
            proof {
                let next = items@.take(index + 1);
                assert(next.drop_last() == items@.take(index as int));
                assert(next.last() == items@[index as int]);
                lemma_occurrences_add(
                    batch_identifiers(items@.take(index as int)),
                    alias_identifiers(items@[index as int]),
                );
            }
            // visit the trait alias, but check for errors only after all are visited
            checker.visit_item_trait_alias(&items[index]);
            index += 1;
        }
        proof {
            assert(items@.take(index as int) == items@);
        }

        match checker.check() {
            Ok(_) => Ok(Self::new(items)),
            Err(error) => Err(error),
        }
    }
}

} // verus!
