//! Tests of the type-registration surface: comma splitting, generic
//! parameter detection, and the emitted implementations.

use implicit_await::ast::{CratePrefix, PathSegment, Token, TypeExpr};
use implicit_await::typelist::{
    as_future, as_future_internal, get_generic_args, is_delimiter, make_impl, split_types,
};

fn text(s: &str) -> Token {
    Token::Text(s.to_string())
}

fn seg(ident: &str, args: Option<&[&str]>) -> PathSegment {
    PathSegment {
        ident: ident.to_string(),
        args: args.map(|a| a.iter().map(|s| s.to_string()).collect()),
    }
}

fn path_type(segments: Vec<PathSegment>) -> TypeExpr {
    TypeExpr::Path { segments }
}

#[test]
fn comma_is_the_delimiter() {
    assert!(is_delimiter(&Token::Punct(',')));
    assert!(!is_delimiter(&Token::Punct(':')));
    assert!(!is_delimiter(&text("u8")));
}

#[test]
fn split_empty_list_gives_no_groups() {
    assert_eq!(split_types(vec![]), Vec::<Vec<Token>>::new());
}

#[test]
fn split_two_types_on_a_comma() {
    let r = split_types(vec![text("u8"), Token::Punct(','), text("u16")]);
    assert_eq!(r, vec![vec![text("u8")], vec![text("u16")]]);
}

#[test]
fn split_keeps_multi_token_groups_together() {
    let r = split_types(vec![
        text("std"),
        Token::Punct(':'),
        text("String"),
        Token::Punct(','),
        text("u8"),
    ]);
    assert_eq!(
        r,
        vec![vec![text("std"), Token::Punct(':'), text("String")], vec![text("u8")]]
    );
}

#[test]
fn split_drops_an_empty_trailing_group() {
    let r = split_types(vec![text("u8"), Token::Punct(',')]);
    assert_eq!(r, vec![vec![text("u8")]]);
}

#[test]
fn split_keeps_an_empty_group_before_a_comma() {
    let r = split_types(vec![Token::Punct(','), text("u8")]);
    assert_eq!(r, vec![vec![], vec![text("u8")]]);
}

#[test]
fn generic_args_of_a_plain_type_are_none() {
    assert_eq!(get_generic_args(&path_type(vec![seg("u8", None)])), None);
}

#[test]
fn generic_args_of_a_non_path_type_are_none() {
    assert_eq!(get_generic_args(&TypeExpr::Other { text: "[u8; 4]".to_string() }), None);
}

#[test]
fn generic_args_come_from_the_last_segment() {
    let t = path_type(vec![seg("std", None), seg("option", None), seg("Option", Some(&["T"]))]);
    assert_eq!(get_generic_args(&t), Some(vec!["T".to_string()]));
}

#[test]
fn registering_a_generic_wrapper_emits_a_generic_implementation() {
    let t = path_type(vec![seg("Wrapper", Some(&["T"]))]);
    let b = make_impl(t, CratePrefix::External);
    assert_eq!(b.generics, Some(vec!["T".to_string()]));
    assert_eq!(b.self_type, path_type(vec![seg("Wrapper", Some(&["T"]))]));
    assert_eq!(b.prefix, CratePrefix::External);
}

#[test]
fn registering_a_two_parameter_wrapper_keeps_both_parameters() {
    let t = path_type(vec![seg("Result", Some(&["T", "E"]))]);
    let b = make_impl(t, CratePrefix::Internal);
    assert_eq!(b.generics, Some(vec!["T".to_string(), "E".to_string()]));
}

#[test]
fn external_registration_emits_one_impl_per_type() {
    let types = vec![
        path_type(vec![seg("u8", None)]),
        path_type(vec![seg("Option", Some(&["T"]))]),
    ];
    let impls = as_future(types);
    assert_eq!(impls.len(), 2);
    assert_eq!(impls[0].generics, None);
    assert_eq!(impls[0].prefix, CratePrefix::External);
    assert_eq!(impls[1].generics, Some(vec!["T".to_string()]));
    assert_eq!(impls[1].prefix, CratePrefix::External);
}

#[test]
fn internal_registration_qualifies_through_the_internal_prefix() {
    let impls = as_future_internal(vec![path_type(vec![seg("bool", None)])]);
    assert_eq!(impls.len(), 1);
    assert_eq!(impls[0].prefix, CratePrefix::Internal);
    assert_eq!(impls[0].generics, None);
}
