//! Trait aliases.
//!
//! A declaration `trait Name = Bound + Bound;` becomes a trait with those bounds as
//! supertraits and an implementation of it for every type that meets them:
//!
//! ```text
//! /// Working in multi-threaded `async` contexts often requires these.
//! pub trait SSS = Send + Sync + 'static;
//! ```
//!
//! generates
//!
//! ```text
//! /// Working in multi-threaded `async` contexts often requires these.
//! pub trait SSS: Send + Sync + 'static {}
//!
//! /// Blanket implementation of [`SSS`] for all types satisfying its bounds.
//! impl<__T> SSS for __T where __T: Send + Sync + 'static + ?Sized {}
//! ```
//!
//! Attributes of the alias are copied to both the generated trait definition and its blanket
//! implementation, except for documentation comments, which only the trait definition gets.
//!
//! The identifier `__T` is reserved for the blanket implementation: declarations that use it
//! anywhere are rejected, all of them together, with one message for each occurrence.
//!
//! The declarations arrive parsed, as [`parse::AliasItem`] values: reading them from the
//! tokens of a macro invocation is left to the macro that calls [`trait_aliases`].

use crate::generate::is_expansion;
use crate::parse::TraitAliases;
use crate::special::error_messages;
use crate::tokens::{stream_texts, string_literal_text, Texts};
use proc_macro2::TokenStream;
use syn::Error;
use vstd::prelude::*;

pub mod generate;
pub mod parse;
pub mod printing;
pub mod special;
pub mod syntax;
pub mod tokens;

verus! {

/// The crate that `compile_error!` is taken from.
pub const CORE: &'static str = "core";

/// The name of the macro that reports an error to the compiler.
pub const COMPILE_ERROR: &'static str = "compile_error";

/// The texts of `::core::compile_error!{ "..." }` with the string `message`.
pub open spec fn compile_error_texts(message: Seq<char>) -> Texts {
    seq![
        seq![':'],
        seq![':'],
        CORE@,
        seq![':'],
        seq![':'],
        COMPILE_ERROR@,
        seq!['!'],
        seq!['{'],
        string_literal_text(message),
        seq!['}'],
    ]
}

/// The texts of one `compile_error!` for each of `messages`, in their order.
pub open spec fn compile_errors_texts(messages: Seq<Seq<char>>) -> Texts
    decreases messages.len(),
{
    if messages.len() == 0 {
        Seq::empty()
    } else {
        compile_errors_texts(messages.drop_last()) + compile_error_texts(messages.last())
    }
}

/// `Error::to_compile_error`: an invocation of `::core::compile_error!` for each message of
/// the error, with the message as a string literal.
#[verifier::external_body]
fn error_tokens(error: &Error) -> (tokens: TokenStream)
    ensures
        stream_texts(tokens) == compile_errors_texts(error_messages(*error)),
{
    error.to_compile_error()
}

/// Defines trait aliases with blanket implementations.
///
/// Takes what parsing and checking the declarations gave. Declarations that passed are
/// expanded, in their order. An error is reported whole, and nothing is generated beside it.
///
/// See the [crate-level] documentation for more details.
///
/// [crate-level]: crate
pub fn trait_aliases(parsed: Result<TraitAliases, Error>) -> (tokens: TokenStream)
    ensures
        match parsed {
            Ok(input) => is_expansion(input.items@, stream_texts(tokens)),
            Err(error) => stream_texts(tokens) == compile_errors_texts(error_messages(error)),
        },
{
    match parsed {
        Ok(input) => generate::trait_aliases(&input),
        Err(error) => error_tokens(&error),
    }
}

} // verus!
