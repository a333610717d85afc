//! Whole declarations, from source text to generated code.

use proc_macro2::{Delimiter, TokenStream, TokenTree};
use syn::parse::{ParseStream, Parser};
use syn::ItemTraitAlias;
use trait_aliases::parse::{AliasItem, TraitAliases};
use trait_aliases::special::MESSAGE;

/// Parses declarations one after another, fails on the first that is malformed, and checks
/// them all for `__T` at the end.
fn parse(input: ParseStream<'_>) -> syn::Result<TraitAliases> {
    let mut items = Vec::new();

    while !input.is_empty() {
        let item: ItemTraitAlias = input.parse()?;

        items.push(AliasItem {
            attrs: item.attrs,
            vis: item.vis,
            ident: item.ident,
            generics: item.generics,
            bounds: item.bounds,
        });
    }

    TraitAliases::checked(items)
}

/// What the macro generates for `source`.
fn expand(source: &str) -> TokenStream {
    trait_aliases::trait_aliases(parse.parse_str(source))
}

/// The texts of the tokens of a stream, groups opened up.
fn texts(stream: TokenStream) -> Vec<String> {
    let mut found = Vec::new();
    for token in stream {
        match token {
            TokenTree::Group(group) => {
                let (open, close) = match group.delimiter() {
                    Delimiter::Parenthesis => ("(", ")"),
                    Delimiter::Brace => ("{", "}"),
                    Delimiter::Bracket => ("[", "]"),
                    Delimiter::None => ("", ""),
                };
                found.push(open.to_string());
                found.extend(texts(group.stream()));
                found.push(close.to_string());
            }
            other => found.push(other.to_string()),
        }
    }
    found
}

/// Expects `source` to expand to the code `expected`.
fn expect(source: &str, expected: &str) {
    let expected: TokenStream = expected.parse().unwrap();
    let generated = expand(source);

    assert_eq!(texts(generated.clone()), texts(expected));

    // the generated code is a sequence of items
    assert!(syn::parse2::<syn::File>(generated).is_ok());
}

/// The messages that `source` is rejected with.
fn rejected(source: &str) -> Vec<String> {
    match parse.parse_str(source) {
        Ok(_) => Vec::new(),
        Err(error) => error.into_iter().map(|error| error.to_string()).collect(),
    }
}

/// The columns that the messages point at with which `source` is rejected.
fn columns(source: &str) -> Vec<usize> {
    match parse.parse_str(source) {
        Ok(_) => Vec::new(),
        Err(error) => error.into_iter().map(|error| error.span().start().column).collect(),
    }
}

/// The columns at which `__T` stands in `source`.
fn reserved(source: &str) -> Vec<usize> {
    source.match_indices("__T").map(|(column, _)| column).collect()
}

#[test]
fn ui_pass() {
    // associated types are supported
    expect(
        "trait Bytes = Iterator<Item = u8>;",
        "trait Bytes: Iterator<Item = u8> {}
         #[doc = \"Blanket implementation of [`Bytes`] for all types satisfying its bounds.\"]
         impl<__T> Bytes for __T where __T: Iterator<Item = u8> + ?Sized {}",
    );

    // bounds can be applied to generic parameters and associated types
    expect(
        "trait GenericIteratorItemSend<T: Send> = Iterator<Item = T>;
         trait IteratorItemSend = Iterator<Item: Send>;",
        "trait GenericIteratorItemSend<T: Send>: Iterator<Item = T> {}
         #[doc = \"Blanket implementation of [`GenericIteratorItemSend`] for all types satisfying its bounds.\"]
         impl<T: Send, __T> GenericIteratorItemSend<T> for __T
         where __T: Iterator<Item = T> + ?Sized {}
         trait IteratorItemSend: Iterator<Item: Send> {}
         #[doc = \"Blanket implementation of [`IteratorItemSend`] for all types satisfying its bounds.\"]
         impl<__T> IteratorItemSend for __T where __T: Iterator<Item: Send> + ?Sized {}",
    );

    // `where` clauses work
    expect(
        "trait DD = where Self: Debug + Display;",
        "trait DD: where Self: Debug + Display {}
         #[doc = \"Blanket implementation of [`DD`] for all types satisfying its bounds.\"]
         impl<__T> DD for __T where Self: Debug + Display, __T: ?Sized {}",
    );

    // aliases can be combined into other aliases
    expect(
        "trait ThreadSafe = Send + Sync;
         trait Bytes = Iterator<Item = u8>;
         trait ThreadSafeBytes = ThreadSafe + Bytes;",
        "trait ThreadSafe: Send + Sync {}
         #[doc = \"Blanket implementation of [`ThreadSafe`] for all types satisfying its bounds.\"]
         impl<__T> ThreadSafe for __T where __T: Send + Sync + ?Sized {}
         trait Bytes: Iterator<Item = u8> {}
         #[doc = \"Blanket implementation of [`Bytes`] for all types satisfying its bounds.\"]
         impl<__T> Bytes for __T where __T: Iterator<Item = u8> + ?Sized {}
         trait ThreadSafeBytes: ThreadSafe + Bytes {}
         #[doc = \"Blanket implementation of [`ThreadSafeBytes`] for all types satisfying its bounds.\"]
         impl<__T> ThreadSafeBytes for __T where __T: ThreadSafe + Bytes + ?Sized {}",
    );

    // the generated trait alias and its bounds are equivalent
    expect(
        "trait SSS = Send + Sync + 'static;",
        "trait SSS: Send + Sync + 'static {}
         #[doc = \"Blanket implementation of [`SSS`] for all types satisfying its bounds.\"]
         impl<__T> SSS for __T where __T: Send + Sync + 'static + ?Sized {}",
    );

    // const and type generics as well as concrete types
    expect(
        "trait IntoArray<T, const N: usize> = Into<[T; N]>;
         trait IntoBytes<const N: usize> = IntoArray<u8, N>;
         trait IntoCount = IntoBytes<COUNT>;",
        "trait IntoArray<T, const N: usize>: Into<[T; N]> {}
         #[doc = \"Blanket implementation of [`IntoArray`] for all types satisfying its bounds.\"]
         impl<T, const N: usize, __T> IntoArray<T, N> for __T where __T: Into<[T; N]> + ?Sized {}
         trait IntoBytes<const N: usize>: IntoArray<u8, N> {}
         #[doc = \"Blanket implementation of [`IntoBytes`] for all types satisfying its bounds.\"]
         impl<const N: usize, __T> IntoBytes<N> for __T where __T: IntoArray<u8, N> + ?Sized {}
         trait IntoCount: IntoBytes<COUNT> {}
         #[doc = \"Blanket implementation of [`IntoCount`] for all types satisfying its bounds.\"]
         impl<__T> IntoCount for __T where __T: IntoBytes<COUNT> + ?Sized {}",
    );

    // aliases with the same bounds
    expect(
        "trait ThreadSafeA = Send + Sync;
         trait ThreadSafeB = Send + Sync;",
        "trait ThreadSafeA: Send + Sync {}
         #[doc = \"Blanket implementation of [`ThreadSafeA`] for all types satisfying its bounds.\"]
         impl<__T> ThreadSafeA for __T where __T: Send + Sync + ?Sized {}
         trait ThreadSafeB: Send + Sync {}
         #[doc = \"Blanket implementation of [`ThreadSafeB`] for all types satisfying its bounds.\"]
         impl<__T> ThreadSafeB for __T where __T: Send + Sync + ?Sized {}",
    );

    // lifetimes and higher-ranked trait bounds are supported
    expect(
        "trait SerializableFor<'de> = Serialize + Deserialize<'de>;
         trait Serializable = for<'de> SerializableFor<'de>;",
        "trait SerializableFor<'de>: Serialize + Deserialize<'de> {}
         #[doc = \"Blanket implementation of [`SerializableFor`] for all types satisfying its bounds.\"]
         impl<'de, __T> SerializableFor<'de> for __T
         where __T: Serialize + Deserialize<'de> + ?Sized {}
         trait Serializable: for<'de> SerializableFor<'de> {}
         #[doc = \"Blanket implementation of [`Serializable`] for all types satisfying its bounds.\"]
         impl<__T> Serializable for __T where __T: for<'de> SerializableFor<'de> + ?Sized {}",
    );

    // the `?Sized` bound is added in the blanket implementation
    expect(
        "trait Alias = Test;",
        "trait Alias: Test {}
         #[doc = \"Blanket implementation of [`Alias`] for all types satisfying its bounds.\"]
         impl<__T> Alias for __T where __T: Test + ?Sized {}",
    );
}

#[test]
fn ui_fail() {
    // *all* occurrences of `__T` are reported as errors
    let messages = rejected("trait Convertible<__T> = From<__T> + Into<__T>;");
    assert_eq!(messages, vec![MESSAGE.to_string(); 3]);

    // `__T` can not appear in the macro input
    let messages = rejected("trait __T = Sized;");
    assert_eq!(messages, vec![MESSAGE.to_string()]);

    // and then errors are all that is generated
    let generated = expand("trait __T = Sized;");
    let expected: TokenStream = format!("::core::compile_error! {{ {MESSAGE:?} }}").parse().unwrap();
    assert_eq!(generated.to_string(), expected.to_string());
}

#[test]
fn every_occurrence_is_pointed_at() {
    let source = "trait Convertible<__T> = From<__T> + Into<__T>;";

    assert_eq!(columns(source), vec![18, 30, 42]);
    assert_eq!(columns(source), reserved(source));
}

#[test]
fn reserved_identifier_is_found_in_any_position() {
    for source in [
        "trait __T = Sized;",
        "trait A<__T> = Sized;",
        "trait A<const __T: usize> = Sized;",
        "trait A<T: __T> = Sized;",
        "trait A<T = __T> = Sized;",
        "trait A = __T;",
        "trait A = path::__T;",
        "trait A = __T::Inner;",
        "trait A = From<__T>;",
        "trait A = From<Vec<Option<__T>>>;",
        "trait A = Iterator<Item = __T>;",
        "trait A = Iterator<__T = u8>;",
        "trait A = Iterator<Item: __T>;",
        "trait A = for<'a> From<&'a __T>;",
        "trait A = Fn(__T) -> u8;",
        "trait A = Fn() -> __T;",
        "trait A = Sized where __T: Send;",
        "trait A = Sized where Self: __T;",
        "trait A = Sized where for<'a> &'a Self: Into<__T>;",
        "pub(in __T) trait A = Sized;",
        "#[__T] trait A = Sized;",
        "#[__T(x)] trait A = Sized;",
        "#[__T = \"x\"] trait A = Sized;",
        "trait A<'__T> = Sized;",
        "trait A = '__T;",
        "trait A = From<[u8; __T]>;",
    ] {
        assert_eq!(rejected(source), vec![MESSAGE.to_string()], "{source}");
        assert_eq!(columns(source), reserved(source), "{source}");
    }
}

#[test]
fn other_identifiers_are_not_reserved() {
    for source in [
        "trait T = Sized;",
        "trait __T1<__T2> = From<__T2> + Into<__T3>;",
        "trait A<__t> = From<__t>;",
        "trait A<_T> = From<_T> where _T: __TT;",
        "trait A = From<r#__T>;",
        "/// Never use `__T` here.\ntrait A = Sized;",
        "#[doc = \"__T\"] trait A = Sized;",
        "#[cfg(feature = \"__T\")] trait A = Sized;",
    ] {
        assert_eq!(rejected(source), Vec::<String>::new(), "{source}");
    }
}

#[test]
fn occurrences_come_in_the_order_of_the_visit() {
    // the `where` clause belongs to the generics, which are visited before the bounds
    let source = "trait A<T> = From<__T> where T: Into<__T>;";

    assert_eq!(columns(source), vec![37, 18]);
}

#[test]
fn occurrences_add_up_over_declarations() {
    let source = "trait A<__T> = From<__T>; trait B = Sized; trait __T = Into<__T>;";

    assert_eq!(rejected(source), vec![MESSAGE.to_string(); 4]);
    assert_eq!(columns(source), reserved(source));
}

#[test]
fn one_occurrence_rejects_every_declaration() {
    let source = "trait Fine = Send + Sync; trait Bad = From<__T>; trait AlsoFine = Fine;";

    let generated = expand(source);

    let expected: TokenStream = format!("::core::compile_error! {{ {MESSAGE:?} }}").parse().unwrap();
    assert_eq!(generated.to_string(), expected.to_string());
    assert!(!texts(generated).contains(&"Fine".to_string()));
}

#[test]
fn each_occurrence_becomes_an_error_of_its_own() {
    let generated = expand("trait Convertible<__T> = From<__T> + Into<__T>;");

    let one = format!("::core::compile_error! {{ {MESSAGE:?} }}");
    let expected: TokenStream = format!("{one} {one} {one}").parse().unwrap();
    assert_eq!(generated.to_string(), expected.to_string());
}

#[test]
fn malformed_declaration_stops_at_once() {
    for source in [
        "trait A = Send",
        "trait A: Send;",
        "trait = Send;",
        "struct A;",
        "trait A = Send; trait B",
        "trait A = Send; fn b() {}",
    ] {
        let messages = rejected(source);

        assert_eq!(messages.len(), 1, "{source}");
        assert_ne!(messages[0], MESSAGE, "{source}");
        assert!(!texts(expand(source)).contains(&"trait".to_string()), "{source}");
    }
}

#[test]
fn malformed_declaration_comes_before_reserved_identifiers() {
    let messages = rejected("trait __T = From<__T>; trait B");

    assert_eq!(messages.len(), 1);
    assert_ne!(messages[0], MESSAGE);
}

#[test]
fn syntax_error_is_reported_as_it_is() {
    let error = syn::Error::new(proc_macro2::Span::call_site(), "expected `=`");

    let generated = trait_aliases::trait_aliases(Err(error));

    assert_eq!(generated.to_string(), ":: core :: compile_error ! { \"expected `=`\" }");
}

#[test]
fn nothing_expands_to_nothing() {
    assert!(expand("").is_empty());
    assert!(expand("   ").is_empty());
}

#[test]
fn checked_items_keep_their_order() {
    let input = parse.parse_str("trait A = Send; trait B = A; trait C = B;").unwrap();

    let names: Vec<String> = input.items.iter().map(|item| item.ident.to_string()).collect();
    assert_eq!(names, vec!["A", "B", "C"]);
}

#[test]
fn documented_example_expands_as_documented() {
    expect(
        "/// Working in multi-threaded `async` contexts often requires these.
         pub trait SSS = Send + Sync + 'static;",
        "#[doc = \" Working in multi-threaded `async` contexts often requires these.\"]
         pub trait SSS: Send + Sync + 'static {}
         #[doc = \"Blanket implementation of [`SSS`] for all types satisfying its bounds.\"]
         impl<__T> SSS for __T where __T: Send + Sync + 'static + ?Sized {}",
    );
}

#[test]
fn numeric_example_expands_as_documented() {
    expect(
        "/// Represents types implementing basic numeric operations.
         pub trait NumOps<R = Self, T = Self> =
             Add<R, Output = T>
             + Sub<R, Output = T>
             + Mul<R, Output = T>
             + Div<R, Output = T>
             + Rem<R, Output = T>;

         /// Represents [`Num`] types which also implement numeric operations taking
         /// the right-hand side operand by reference.
         pub trait NumRef = Num + for<'r> NumOps<&'r Self>;",
        "#[doc = \" Represents types implementing basic numeric operations.\"]
         pub trait NumOps<R = Self, T = Self>:
             Add<R, Output = T>
             + Sub<R, Output = T>
             + Mul<R, Output = T>
             + Div<R, Output = T>
             + Rem<R, Output = T> {}
         #[doc = \"Blanket implementation of [`NumOps`] for all types satisfying its bounds.\"]
         impl<R, T, __T> NumOps<R, T> for __T
         where __T: Add<R, Output = T>
             + Sub<R, Output = T>
             + Mul<R, Output = T>
             + Div<R, Output = T>
             + Rem<R, Output = T>
             + ?Sized {}
         #[doc = \" Represents [`Num`] types which also implement numeric operations taking\"]
         #[doc = \" the right-hand side operand by reference.\"]
         pub trait NumRef: Num + for<'r> NumOps<&'r Self> {}
         #[doc = \"Blanket implementation of [`NumRef`] for all types satisfying its bounds.\"]
         impl<__T> NumRef for __T where __T: Num + for<'r> NumOps<&'r Self> + ?Sized {}",
    );
}

#[test]
fn conditional_example_gates_trait_and_implementation() {
    expect(
        "/// Represents identifier types.
         #[cfg(feature = \"serde\")]
         pub trait Id = BaseId + Serializable;

         /// Represents identifier types.
         #[cfg(not(feature = \"serde\"))]
         pub trait Id = BaseId;",
        "#[doc = \" Represents identifier types.\"]
         #[cfg(feature = \"serde\")]
         pub trait Id: BaseId + Serializable {}
         #[doc = \"Blanket implementation of [`Id`] for all types satisfying its bounds.\"]
         #[cfg(feature = \"serde\")]
         impl<__T> Id for __T where __T: BaseId + Serializable + ?Sized {}
         #[doc = \" Represents identifier types.\"]
         #[cfg(not(feature = \"serde\"))]
         pub trait Id: BaseId {}
         #[doc = \"Blanket implementation of [`Id`] for all types satisfying its bounds.\"]
         #[cfg(not(feature = \"serde\"))]
         impl<__T> Id for __T where __T: BaseId + ?Sized {}",
    );
}
