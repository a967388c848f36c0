use type_gen::queries::{
    function_type_of_lowered, make_all_cols_nullable, make_type_nullable, TokenCollector,
};
use type_gen::types::{builtin_type, type_from_lowered_name, type_from_type_name, BuiltinType, TypeKind};
use type_gen::util::{decimal_text, unquote_ident};

fn b(t: BuiltinType) -> Vec<(TypeKind, Option<BuiltinType>, Option<String>)> {
    vec![(TypeKind::Builtin, Some(t), None)]
}

#[test]
fn type_names_are_matched_without_case() {
    assert_eq!(type_from_type_name("INTEGER".to_string()), b(BuiltinType::Int));
    assert_eq!(type_from_type_name("Int".to_string()), b(BuiltinType::Int));
    assert_eq!(type_from_type_name("BIGINT".to_string()), b(BuiltinType::BigInt));
    assert_eq!(type_from_type_name("biginteger".to_string()), b(BuiltinType::BigInt));
    assert_eq!(type_from_type_name("Text".to_string()), b(BuiltinType::String));
    assert_eq!(type_from_type_name("STRING".to_string()), b(BuiltinType::String));
    assert_eq!(type_from_type_name("number".to_string()), b(BuiltinType::Number));
    assert_eq!(type_from_type_name("BOOLEAN".to_string()), b(BuiltinType::Boolean));
    assert_eq!(type_from_type_name("Blob".to_string()), b(BuiltinType::Blob));
    assert_eq!(type_from_type_name("JSON".to_string()), b(BuiltinType::Json));
    assert_eq!(type_from_type_name("DOUBLE".to_string()), b(BuiltinType::Float));
    assert_eq!(type_from_type_name("Real".to_string()), b(BuiltinType::Float));
    assert_eq!(type_from_type_name("date".to_string()), b(BuiltinType::Date));
    assert_eq!(type_from_type_name("TIMESTAMP".to_string()), b(BuiltinType::Time));
    assert_eq!(type_from_type_name("ANY".to_string()), b(BuiltinType::Any));
}

#[test]
fn unknown_type_name_is_custom_as_written() {
    assert_eq!(
        type_from_type_name("VarChar".to_string()),
        vec![(TypeKind::Custom, None, Some("VarChar".to_string()))]
    );
    assert_eq!(
        type_from_lowered_name("international", "International".to_string()),
        vec![(TypeKind::Custom, None, Some("International".to_string()))]
    );
    assert_eq!(type_from_lowered_name("int", "whatever".to_string()), b(BuiltinType::Int));
}

#[test]
fn builtin_type_is_a_single_atom() {
    assert_eq!(builtin_type(BuiltinType::Null), b(BuiltinType::Null));
}

#[test]
fn function_table_on_lowercase_names() {
    assert_eq!(function_type_of_lowered("count"), b(BuiltinType::Int));
    assert_eq!(function_type_of_lowered("COUNT"), vec![]);
    assert_eq!(function_type_of_lowered("typeof"), b(BuiltinType::String));
    assert_eq!(function_type_of_lowered("iif"), vec![]);
}

#[test]
fn identifiers_lose_their_quotes() {
    assert_eq!(unquote_ident("\"foo\""), "foo");
    assert_eq!(unquote_ident("[foo bar]"), "foo bar");
    assert_eq!(unquote_ident("`x`"), "x");
    assert_eq!(unquote_ident("foo"), "foo");
    assert_eq!(unquote_ident("\""), "\"");
    assert_eq!(unquote_ident(""), "");
}

#[test]
fn tokens_are_joined_by_spaces() {
    let mut c = TokenCollector { parts: vec![] };
    assert_eq!(c.to_string(), "");
    c.append(Some("max"));
    c.append(None);
    c.append(Some("a"));
    c.append(None);
    assert_eq!(c.parts, vec!["max".to_string(), "a".to_string()]);
    assert_eq!(c.to_string(), "max a");
}

#[test]
fn decimal_text_of_numbers() {
    assert_eq!(decimal_text(0), "0");
    assert_eq!(decimal_text(7), "7");
    assert_eq!(decimal_text(10), "10");
    assert_eq!(decimal_text(1203), "1203");
}

#[test]
fn nullable_types_gain_one_null() {
    let null = (TypeKind::Builtin, Some(BuiltinType::Null), None);
    assert_eq!(make_type_nullable(b(BuiltinType::Int)), vec![b(BuiltinType::Int)[0].clone(), null.clone()]);
    let already = vec![null.clone(), b(BuiltinType::Int)[0].clone()];
    assert_eq!(make_type_nullable(already.clone()), already);
    assert_eq!(make_type_nullable(vec![]), vec![null.clone()]);
    let rel = (Some("main.t".to_string()), vec![("a".to_string(), b(BuiltinType::Blob))]);
    assert_eq!(
        make_all_cols_nullable(rel),
        (Some("main.t".to_string()), vec![("a".to_string(), vec![b(BuiltinType::Blob)[0].clone(), null])])
    );
}

#[test]
fn names_outside_the_function_table_give_the_empty_union() {
    assert_eq!(function_type_of_lowered("instr"), vec![]);
    assert_eq!(function_type_of_lowered("insrt"), vec![]);
    assert_eq!(function_type_of_lowered("length"), b(BuiltinType::Int));
}
