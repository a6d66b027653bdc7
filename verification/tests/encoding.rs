use std::collections::{BTreeMap, HashMap};

use self_tokenize::encode::ToCustomTokens;
use self_tokenize::literal::{bool_str, index_text, push_decimal, Integer};
use self_tokenize::shape::{Body, Description, Field, Fields, Generics, Variant};
use self_tokenize::value::{Custom, Elements, EncodeError, Scalar, Value, MAX_TUPLE_ARITY};

fn encoded(value: &Value) -> String {
    let mut t = quote::Tokens::new();
    assert_eq!(value.to_custom_tokens(&mut t), Ok(()));
    t.to_string()
}

fn refused(value: &Value) -> EncodeError {
    let mut t = quote::Tokens::new();
    t.append("before");
    let error = value.to_custom_tokens(&mut t).unwrap_err();
    assert_eq!(t.to_string(), "before");
    error
}

fn number(value: i32) -> Value {
    Value::Scalar(Scalar::Integer(Integer::I32(value)))
}

fn numbers(values: &[i32]) -> Vec<Value> {
    values.iter().map(|value| number(*value)).collect()
}

fn description(name: &str, body: Body) -> Description {
    Description {
        name: name.to_string(),
        generics: Generics {
            impl_generics: String::new(),
            ty_generics: String::new(),
            where_clause: String::new(),
        },
        body,
    }
}

fn positional(count: usize) -> Fields {
    Fields::Tuple((0..count).map(|_| Field { name: None }).collect())
}

fn named(names: &[&str]) -> Fields {
    Fields::Named(names.iter().map(|name| Field { name: Some(name.to_string()) }).collect())
}

fn custom(description: Description, variant: usize, fields: Vec<Value>) -> Value {
    Value::Custom(Custom { description, variant, fields })
}

fn shared(strong_count: usize) -> Value {
    Value::SharedLocal { strong_count, inner: Box::new(number(1)) }
}

#[test]
fn decimal_text_of_the_extremes() {
    let mut text = String::new();
    push_decimal(0, &mut text);
    assert_eq!(text, "0");
    let mut text = "x".to_string();
    push_decimal(i128::MIN, &mut text);
    assert_eq!(text, format!("x{}", i128::MIN));
    let mut text = String::new();
    push_decimal(i128::MAX, &mut text);
    assert_eq!(text, i128::MAX.to_string());
    let mut text = String::new();
    push_decimal(-10, &mut text);
    assert_eq!(text, "-10");
    assert_eq!(index_text(0), "0");
    assert_eq!(index_text(1090), "1090");
}

#[test]
fn integer_literals_carry_their_type() {
    assert_eq!(Integer::I8(-128).to_literal(), "-128i8");
    assert_eq!(Integer::U8(255).to_literal(), "255u8");
    assert_eq!(Integer::I16(i16::MIN).to_literal(), "-32768i16");
    assert_eq!(Integer::U16(u16::MAX).to_literal(), "65535u16");
    assert_eq!(Integer::I32(0).to_literal(), "0i32");
    assert_eq!(Integer::U32(u32::MAX).to_literal(), "4294967295u32");
    assert_eq!(Integer::I64(i64::MIN).to_literal(), "-9223372036854775808i64");
    assert_eq!(Integer::U64(u64::MAX).to_literal(), "18446744073709551615u64");
    assert_eq!(Integer::Isize(-7).to_literal(), "-7isize");
    assert_eq!(Integer::Usize(7).to_literal(), "7usize");
    assert_eq!(Integer::U64(u64::MAX).widened(), u64::MAX as i128);
    assert_eq!(Integer::I16(7).suffix_str(), "i16");
}

fn quoted<T: quote::ToTokens>(value: T) -> String {
    let mut t = quote::Tokens::new();
    value.to_tokens(&mut t);
    t.to_string()
}

#[test]
fn integer_literals_are_those_of_quote() {
    for value in [i8::MIN, -1, 0, 1, 9, 10, 99, 100, i8::MAX] {
        assert_eq!(Integer::I8(value).to_literal(), quoted(value));
    }
    for value in [0, 9, 10, 11, 199, u8::MAX] {
        assert_eq!(Integer::U8(value).to_literal(), quoted(value));
    }
    for value in [i16::MIN, -1000, 0, 1000, i16::MAX] {
        assert_eq!(Integer::I16(value).to_literal(), quoted(value));
    }
    for value in [0, 1, 10000, u16::MAX] {
        assert_eq!(Integer::U16(value).to_literal(), quoted(value));
    }
    for value in [i32::MIN, -123456789, 0, 1000000000, i32::MAX] {
        assert_eq!(Integer::I32(value).to_literal(), quoted(value));
    }
    for value in [0, 4000000000, u32::MAX] {
        assert_eq!(Integer::U32(value).to_literal(), quoted(value));
    }
    for value in [i64::MIN, i64::MIN + 1, -1, 0, i64::MAX] {
        assert_eq!(Integer::I64(value).to_literal(), quoted(value));
    }
    for value in [0, 10000000000000000000, u64::MAX] {
        assert_eq!(Integer::U64(value).to_literal(), quoted(value));
    }
    for value in [isize::MIN, -1, 0, isize::MAX] {
        assert_eq!(Integer::Isize(value).to_literal(), quoted(value));
    }
    for value in [0, 1, usize::MAX] {
        assert_eq!(Integer::Usize(value).to_literal(), quoted(value));
    }
    assert_eq!(bool_str(true), quoted(true));
    assert_eq!(bool_str(false), quoted(false));
}

#[test]
fn compact_slices_are_those_of_the_debug_format() {
    let bools = [true, false, true];
    assert_eq!(
        encoded(&Value::Slice(Elements::Scalars(bools.iter().map(|b| Scalar::Bool(*b)).collect()))),
        format!("{:?}", bools)
    );
    let numbers = [i64::MIN, -1, 0, 1, i64::MAX];
    assert_eq!(
        encoded(&Value::Slice(Elements::Scalars(
            numbers.iter().map(|n| Scalar::Integer(Integer::I64(*n))).collect()
        ))),
        format!("{:?}", numbers)
    );
    let chars = ['a', '"', '\'', '\\', '\0', '\u{7f}', 'é'];
    assert_eq!(
        encoded(&Value::Slice(Elements::Scalars(chars.iter().map(|c| Scalar::Char(*c)).collect()))),
        format!("{:?}", chars)
    );
    let nothing: [u8; 0] = [];
    assert_eq!(encoded(&Value::Slice(Elements::Scalars(vec![]))), format!("{:?}", nothing));
}

#[test]
fn scalars_are_written_as_literals() {
    assert_eq!(bool_str(true), "true");
    assert_eq!(bool_str(false), "false");
    assert_eq!(encoded(&Value::Scalar(Scalar::Bool(false))), "false");
    assert_eq!(encoded(&number(-42)), "-42i32");
    assert_eq!(encoded(&Value::Scalar(Scalar::Char('a'))), "'a'");
    assert_eq!(encoded(&Value::Scalar(Scalar::Char('\n'))), "'\\n'");
    assert_eq!(encoded(&Value::Scalar(Scalar::Char('\0'))), "'\\0'");
    assert_eq!(encoded(&Value::Scalar(Scalar::Char('"'))), "'\"'");
    assert_eq!(encoded(&Value::Float("4.3f64".to_string())), "4.3f64");
    assert_eq!(encoded(&Value::OrderedFloat("4.3f64".to_string())), "4.3f64 . into ( )");
}

#[test]
fn strings_are_escaped() {
    assert_eq!(encoded(&Value::StrSlice("a\"b\\c\n".to_string())), "\"a\\\"b\\\\c\\n\"");
    assert_eq!(encoded(&Value::StrSlice("it's".to_string())), "\"it's\"");
    assert_eq!(encoded(&Value::StrSlice(String::new())), "\"\"");
    assert_eq!(
        encoded(&Value::OwnedString("tab\there".to_string())),
        "\"tab\\there\" . to_string ( )"
    );
}

#[test]
fn slices_of_scalars_are_compact() {
    assert_eq!(encoded(&Value::Slice(Elements::Scalars(vec![]))), "[]");
    assert_eq!(
        encoded(&Value::Slice(Elements::Scalars(vec![Scalar::Bool(true), Scalar::Bool(false)]))),
        "[true, false]"
    );
    assert_eq!(
        encoded(&Value::Slice(Elements::Scalars(vec![
            Scalar::Integer(Integer::I8(-1)),
            Scalar::Integer(Integer::I8(2)),
        ]))),
        "[-1, 2]"
    );
    assert_eq!(
        encoded(&Value::Sequence(Elements::Scalars(vec![
            Scalar::Char('a'),
            Scalar::Char('\''),
            Scalar::Char('\n'),
        ]))),
        format!("vec! {:?}", ['a', '\'', '\n'])
    );
    assert_eq!(Elements::Scalars(vec![Scalar::Bool(true)]).count(), 1);
    assert_eq!(Elements::Values(vec![]).count(), 0);
}

#[test]
fn every_element_is_followed_by_a_separator() {
    assert_eq!(encoded(&Value::Slice(Elements::Values(vec![]))), "[ ]");
    assert_eq!(encoded(&Value::Slice(Elements::Values(numbers(&[1])))), "[ 1i32 , ]");
    assert_eq!(
        encoded(&Value::Sequence(Elements::Values(numbers(&[1, 2])))),
        "vec! [ 1i32 , 2i32 , ]"
    );
    assert_eq!(encoded(&Value::Tuple(vec![])), "( )");
    assert_eq!(encoded(&Value::Tuple(numbers(&[1]))), "( 1i32 , )");
    assert_eq!(encoded(&Value::Tuple(numbers(&[1, 2, 3]))), "( 1i32 , 2i32 , 3i32 , )");
}

#[test]
fn no_separator_stands_before_the_closing_delimiter_of_fields() {
    let tuple = custom(description("T", Body::Struct(positional(2))), 0, numbers(&[1, 2]));
    assert_eq!(encoded(&tuple), "T ( 1i32 , 2i32 )");
    let empty = custom(description("T", Body::Struct(positional(0))), 0, vec![]);
    assert_eq!(encoded(&empty), "T ( )");
    let named = custom(description("N", Body::Struct(named(&["a", "b"]))), 0, numbers(&[1, 2]));
    assert_eq!(encoded(&named), "N { a : 1i32 , b : 2i32 }");
    let nested = custom(
        description("T", Body::Struct(positional(1))),
        0,
        vec![Value::Tuple(numbers(&[1]))],
    );
    assert_eq!(encoded(&nested), "T ( ( 1i32 , ) )");
}

#[test]
fn wrappers_are_written_as_constructor_calls() {
    assert_eq!(encoded(&Value::Optional(None)), "None");
    assert_eq!(encoded(&Value::Optional(Some(Box::new(number(1))))), "Some ( 1i32 )");
    assert_eq!(
        encoded(&Value::CopyOnWrite(Box::new(Value::Slice(Elements::Values(numbers(&[1])))))),
        "::std::borrow::Cow :: from ( [ 1i32 , ] )"
    );
    assert_eq!(encoded(&Value::Boxed(Box::new(number(1)))), "box 1i32");
    assert_eq!(encoded(&Value::Reference(Box::new(number(1)))), "1i32");
    assert_eq!(encoded(&shared(1)), "::std::rc::Rc :: new ( 1i32 )");
    assert_eq!(
        encoded(&Value::SharedSync { strong_count: 1, inner: Box::new(number(1)) }),
        "::std::sync::Arc :: new ( 1i32 )"
    );
}

#[test]
fn small_sequences_take_one_of_three_forms() {
    let small = |inline_size: usize, values: &[i32]| Value::SmallSequence {
        inline_size,
        elements: Elements::Values(numbers(values)),
    };
    assert_eq!(encoded(&small(4, &[])), "SmallVec :: new ( )");
    assert_eq!(encoded(&small(0, &[])), "SmallVec :: new ( )");
    assert_eq!(encoded(&small(2, &[1, 2])), "SmallVec :: from_buf ( [ 1i32 , 2i32 , ] )");
    assert_eq!(encoded(&small(2, &[1])), "SmallVec :: from_vec ( vec! [ 1i32 , ] )");
    assert_eq!(
        encoded(&small(2, &[1, 2, 3])),
        "SmallVec :: from_vec ( vec! [ 1i32 , 2i32 , 3i32 , ] )"
    );
}

#[test]
fn mappings_are_built_from_their_entries() {
    let mut ordered = BTreeMap::new();
    ordered.insert(2, 20);
    ordered.insert(1, 10);
    let entries = || ordered.iter().map(|(k, v)| (number(*k), number(*v))).collect::<Vec<_>>();
    assert_eq!(
        encoded(&Value::OrderedMapping(entries())),
        "::std::collections::BTreeMap :: from_iter ( vec! [ ( 1i32 , 10i32 , ) , ( 2i32 , 20i32 , ) , ] )"
    );
    assert_eq!(
        encoded(&Value::OrderedMapping(entries())),
        encoded(&Value::OrderedMapping(entries()))
    );
    assert_eq!(
        encoded(&Value::OrderedMapping(vec![])),
        "::std::collections::BTreeMap :: from_iter ( vec! [ ] )"
    );
    let mut hashed = HashMap::new();
    hashed.insert(1, 10);
    assert_eq!(
        encoded(&Value::HashMapping(hashed.iter().map(|(k, v)| (number(*k), number(*v))).collect())),
        "::std::collections::HashMap :: from_iter ( vec! [ ( 1i32 , 10i32 , ) , ] )"
    );
}

#[test]
fn a_shared_pointer_must_hold_the_only_reference() {
    assert_eq!(refused(&shared(2)), EncodeError::UnsoundOperation);
    assert_eq!(refused(&shared(0)), EncodeError::UnsoundOperation);
    assert_eq!(
        refused(&Value::SharedSync { strong_count: 3, inner: Box::new(number(1)) }),
        EncodeError::UnsoundOperation
    );
    assert!(shared(1).is_sound());
    assert!(!shared(2).is_sound());
    assert!(shared(2).is_well_formed());
}

#[test]
fn an_unsound_value_is_refused_wherever_it_stands() {
    let inside = vec![
        Value::Sequence(Elements::Values(vec![number(1), shared(2)])),
        Value::Slice(Elements::Values(vec![shared(2)])),
        Value::Tuple(vec![shared(2), number(1)]),
        Value::Optional(Some(Box::new(shared(2)))),
        Value::CopyOnWrite(Box::new(shared(2))),
        Value::Boxed(Box::new(shared(2))),
        Value::Reference(Box::new(shared(2))),
        Value::SharedLocal { strong_count: 1, inner: Box::new(shared(2)) },
        Value::SharedSync { strong_count: 1, inner: Box::new(shared(2)) },
        Value::SmallSequence { inline_size: 1, elements: Elements::Values(vec![shared(2)]) },
        Value::HashMapping(vec![(shared(2), number(1))]),
        Value::OrderedMapping(vec![(number(1), shared(2))]),
        custom(description("T", Body::Struct(positional(1))), 0, vec![shared(2)]),
    ];
    for value in &inside {
        assert_eq!(refused(value), EncodeError::UnsoundOperation);
        assert!(!value.is_sound());
    }
}

#[test]
fn a_tuple_has_at_most_thirteen_components() {
    assert_eq!(MAX_TUPLE_ARITY, 13);
    let thirteen = Value::Tuple(numbers(&[0; 13]));
    assert!(thirteen.is_well_formed());
    assert_eq!(encoded(&thirteen).matches("0i32 ,").count(), 13);
    let fourteen = Value::Tuple(numbers(&[0; 14]));
    assert!(!fourteen.is_well_formed());
    assert_eq!(refused(&fourteen), EncodeError::Malformed);
    assert_eq!(refused(&Value::Boxed(Box::new(Value::Tuple(numbers(&[0; 14]))))), EncodeError::Malformed);
}

#[test]
fn a_value_must_fit_its_description() {
    let too_few = custom(description("T", Body::Struct(positional(2))), 0, numbers(&[1]));
    assert_eq!(refused(&too_few), EncodeError::Malformed);
    let too_many = custom(description("U", Body::Struct(Fields::Unit)), 0, numbers(&[1]));
    assert_eq!(refused(&too_many), EncodeError::Malformed);
    let variants = || {
        Body::Enum(vec![
            Variant { name: "A".to_string(), fields: Fields::Unit },
            Variant { name: "B".to_string(), fields: positional(1) },
        ])
    };
    assert_eq!(encoded(&custom(description("E", variants()), 0, vec![])), "E :: A");
    assert_eq!(encoded(&custom(description("E", variants()), 1, numbers(&[1]))), "E :: B ( 1i32 )");
    assert_eq!(refused(&custom(description("E", variants()), 2, vec![])), EncodeError::Malformed);
    assert_eq!(refused(&custom(description("E", variants()), 0, numbers(&[1]))), EncodeError::Malformed);
    let nameless = Fields::Named(vec![Field { name: None }]);
    assert_eq!(
        refused(&custom(description("N", Body::Struct(nameless)), 0, numbers(&[1]))),
        EncodeError::Malformed
    );
    let elsewhere = Body::Enum(vec![
        Variant { name: "A".to_string(), fields: Fields::Unit },
        Variant { name: "B".to_string(), fields: Fields::Named(vec![Field { name: None }]) },
    ]);
    assert_eq!(refused(&custom(description("E", elsewhere), 0, vec![])), EncodeError::Malformed);
}

#[test]
fn faults_have_their_words() {
    assert_eq!(EncodeError::UnsoundOperation.message(), "Unsound operation");
    assert_eq!(EncodeError::Malformed.message(), "Malformed value");
}

#[test]
fn a_malformed_value_is_reported_as_such_even_if_unsound() {
    let both = Value::Tuple(vec![shared(2), Value::Tuple(numbers(&[0; 14]))]);
    assert_eq!(refused(&both), EncodeError::Malformed);
}

#[test]
fn the_variant_of_a_struct_is_not_read() {
    let value = custom(description("T", Body::Struct(positional(1))), 7, numbers(&[1]));
    assert_eq!(encoded(&value), "T ( 1i32 )");
}

#[test]
fn a_custom_value_is_checked_and_encoded_on_its_own() {
    let value = Custom {
        description: description("N", Body::Struct(named(&["a"]))),
        variant: 0,
        fields: vec![shared(1)],
    };
    assert!(value.is_fitting());
    assert!(value.is_well_formed());
    assert!(value.is_sound());
    let mut t = quote::Tokens::new();
    assert_eq!(value.to_custom_tokens(&mut t), Ok(()));
    assert_eq!(t.to_string(), "N { a : ::std::rc::Rc :: new ( 1i32 ) }");
    let unsound = Custom {
        description: description("N", Body::Struct(named(&["a"]))),
        variant: 0,
        fields: vec![shared(2)],
    };
    let mut t = quote::Tokens::new();
    assert_eq!(unsound.to_custom_tokens(&mut t), Err(EncodeError::UnsoundOperation));
    assert_eq!(unsound.to_tokens(&mut t), Err(EncodeError::UnsoundOperation));
    assert_eq!(t.to_string(), "");
    let unfit = Custom {
        description: description("N", Body::Struct(named(&["a"]))),
        variant: 0,
        fields: vec![],
    };
    assert!(!unfit.is_fitting());
    assert_eq!(unfit.to_custom_tokens(&mut t), Err(EncodeError::Malformed));
}

#[test]
fn fragments_follow_what_the_sink_holds() {
    let mut t = quote::Tokens::new();
    t.append("let");
    t.append("x");
    t.append("=");
    assert_eq!(Value::Tuple(numbers(&[1])).to_custom_tokens(&mut t), Ok(()));
    assert_eq!(t.to_string(), "let x = ( 1i32 , )");
    assert_eq!(Value::Float(String::new()).to_custom_tokens(&mut t), Ok(()));
    assert_eq!(t.to_string(), "let x = ( 1i32 , )");
}

#[test]
fn an_optional_string_slice() {
    assert_eq!(
        encoded(&Value::Optional(Some(Box::new(Value::StrSlice("test".to_string()))))),
        "Some ( \"test\" )"
    );
    assert_eq!(encoded(&Value::Optional(None)), "None");
}
