use self_tokenize::codegen::{
    expand_enum, expand_macro, expand_struct, expand_struct_struct, expand_tuple_struct,
    expand_unit_struct, generate_impl, render_plan,
};
use self_tokenize::plan::{compile, Plan, Step};
use self_tokenize::shape::{Body, Description, Field, Fields, Generics, ShapeError, Variant};

fn no_generics() -> Generics {
    Generics {
        impl_generics: String::new(),
        ty_generics: String::new(),
        where_clause: String::new(),
    }
}

fn slots(names: &[Option<&str>]) -> Vec<Field> {
    names.iter().map(|name| Field { name: name.map(|n| n.to_string()) }).collect()
}

fn structure(name: &str, fields: Fields) -> Description {
    Description { name: name.to_string(), generics: no_generics(), body: Body::Struct(fields) }
}

fn enumeration(name: &str, variants: Vec<(&str, Fields)>) -> Description {
    Description {
        name: name.to_string(),
        generics: no_generics(),
        body: Body::Enum(
            variants
                .into_iter()
                .map(|(name, fields)| Variant { name: name.to_string(), fields })
                .collect(),
        ),
    }
}

fn text(pieces: &[&str]) -> String {
    pieces.join(" ")
}

fn forwarding(header: &str) -> String {
    format!(
        "impl{} ToTokens for {} {{ fn to_tokens ( & self , tokens : & mut :: self_tokenize_trait :: Tokens ) \
         {{ self . to_custom_tokens ( tokens ) ; }} }}",
        " :: self_tokenize_trait ::", header
    )
}

fn encoder(header: &str, body: &str) -> String {
    format!(
        "impl{} ToCustomTokens for {} {{ fn to_custom_tokens ( & self , tokens : & mut :: self_tokenize_trait :: Tokens ) \
         {{ {} }} }}",
        " :: self_tokenize_trait ::", header, body
    )
}

#[test]
fn unit_struct_appends_its_name() {
    let ast = structure("Unit", Fields::Unit);
    let tokens = expand_unit_struct(&ast, true, true);
    assert_eq!(
        tokens.to_string(),
        text(&[&forwarding("Unit"), &encoder("Unit", "tokens . append ( \"Unit\" ) ;")])
    );
}

#[test]
fn both_implementations_can_be_asked_for_separately() {
    let ast = structure("Unit", Fields::Unit);
    assert_eq!(expand_unit_struct(&ast, true, false).to_string(), forwarding("Unit"));
    assert_eq!(
        expand_unit_struct(&ast, false, true).to_string(),
        encoder("Unit", "tokens . append ( \"Unit\" ) ;")
    );
    assert_eq!(expand_unit_struct(&ast, false, false).to_string(), "");
}

#[test]
fn tuple_struct_separates_its_fields() {
    let ast = structure("Pair", Fields::Tuple(slots(&[None, None])));
    let fields = slots(&[None, None]);
    let tokens = expand_tuple_struct(&ast, &fields, false, true);
    assert_eq!(
        tokens.to_string(),
        encoder(
            "Pair",
            "tokens . append ( \"Pair\" ) ; tokens . append ( \"(\" ) ; \
             self . 0 . to_custom_tokens ( tokens ) ; tokens . append ( \",\" ) ; \
             self . 1 . to_custom_tokens ( tokens ) ; tokens . append ( \")\" ) ;"
        )
    );
}

#[test]
fn tuple_struct_without_fields_has_empty_brackets() {
    let ast = structure("Nothing", Fields::Tuple(vec![]));
    let tokens = expand_tuple_struct(&ast, &[], false, true);
    assert_eq!(
        tokens.to_string(),
        encoder(
            "Nothing",
            "tokens . append ( \"Nothing\" ) ; tokens . append ( \"(\" ) ; tokens . append ( \")\" ) ;"
        )
    );
}

#[test]
fn named_struct_writes_names_and_values() {
    let fields = slots(&[Some("x"), Some("y")]);
    let ast = structure("Point", Fields::Named(fields.clone()));
    let tokens = expand_struct_struct(&ast, &fields, false, true).unwrap();
    assert_eq!(
        tokens.to_string(),
        encoder(
            "Point",
            "tokens . append ( \"Point\" ) ; tokens . append ( \"{\" ) ; \
             tokens . append ( \"x\" ) ; tokens . append ( \":\" ) ; self . x . to_custom_tokens ( tokens ) ; \
             tokens . append ( \",\" ) ; \
             tokens . append ( \"y\" ) ; tokens . append ( \":\" ) ; self . y . to_custom_tokens ( tokens ) ; \
             tokens . append ( \"}\" ) ;"
        )
    );
}

#[test]
fn enum_matches_on_each_variant() {
    let ast = enumeration(
        "E",
        vec![
            ("A", Fields::Unit),
            ("B", Fields::Tuple(slots(&[None, None]))),
            ("C", Fields::Named(slots(&[Some("x")]))),
        ],
    );
    let tokens = expand_macro(&ast, false, true).unwrap();
    assert_eq!(
        tokens.to_string(),
        encoder(
            "E",
            "match self { \
             & E :: A => { tokens . append ( \"E :: A\" ) ; } , \
             & E :: B ( ref _0 , ref _1 ) => { tokens . append ( \"E :: B\" ) ; tokens . append ( \"(\" ) ; \
             _0 . to_custom_tokens ( tokens ) ; tokens . append ( \",\" ) ; _1 . to_custom_tokens ( tokens ) ; \
             tokens . append ( \")\" ) ; } , \
             & E :: C { ref x } => { tokens . append ( \"E :: C\" ) ; tokens . append ( \"{\" ) ; \
             tokens . append ( \"x\" ) ; tokens . append ( \":\" ) ; x . to_custom_tokens ( tokens ) ; \
             tokens . append ( \"}\" ) ; } , \
             }"
        )
    );
}

#[test]
fn enum_without_variants_matches_on_nothing() {
    let ast = enumeration("Never", vec![]);
    let tokens = expand_enum(&ast, &[], false, true).unwrap();
    assert_eq!(tokens.to_string(), encoder("Never", "match self { }"));
}

#[test]
fn generics_are_carried_into_the_headers() {
    let ast = Description {
        name: "Holder".to_string(),
        generics: Generics {
            impl_generics: "< 'a , T : Clone >".to_string(),
            ty_generics: "< 'a , T >".to_string(),
            where_clause: "where T : 'a".to_string(),
        },
        body: Body::Struct(Fields::Unit),
    };
    let tokens = expand_macro(&ast, true, true).unwrap();
    assert_eq!(
        tokens.to_string(),
        "impl < 'a , T : Clone > :: self_tokenize_trait :: ToTokens for Holder < 'a , T > where T : 'a \
         { fn to_tokens ( & self , tokens : & mut :: self_tokenize_trait :: Tokens ) \
         { self . to_custom_tokens ( tokens ) ; } } \
         impl < 'a , T : Clone > :: self_tokenize_trait :: ToCustomTokens for Holder < 'a , T > where T : 'a \
         { fn to_custom_tokens ( & self , tokens : & mut :: self_tokenize_trait :: Tokens ) \
         { tokens . append ( \"Holder\" ) ; } }"
    );
}

#[test]
fn names_are_written_as_escaped_literals() {
    let ast = structure("Odd\"Name", Fields::Unit);
    let tokens = expand_macro(&ast, false, true).unwrap();
    assert_eq!(
        tokens.to_string(),
        "impl :: self_tokenize_trait :: ToCustomTokens for Odd\"Name \
         { fn to_custom_tokens ( & self , tokens : & mut :: self_tokenize_trait :: Tokens ) \
         { tokens . append ( \"Odd\\\"Name\" ) ; } }"
    );
}

#[test]
fn generate_impl_wraps_the_body_given() {
    let ast = structure("Unit", Fields::Unit);
    let mut body = quote::Tokens::new();
    body.append("body");
    body.append(";");
    let tokens = generate_impl(&ast, true, true, body);
    assert_eq!(tokens.to_string(), text(&[&forwarding("Unit"), &encoder("Unit", "body ;")]));
}

#[test]
fn generate_impl_with_an_empty_body() {
    let ast = structure("Unit", Fields::Unit);
    let tokens = generate_impl(&ast, false, true, quote::Tokens::new());
    assert_eq!(
        tokens.to_string(),
        "impl :: self_tokenize_trait :: ToCustomTokens for Unit \
         { fn to_custom_tokens ( & self , tokens : & mut :: self_tokenize_trait :: Tokens ) { } }"
    );
}

#[test]
fn expand_struct_goes_by_the_kind_of_fields() {
    let ast = structure("S", Fields::Unit);
    let unit = expand_struct(&ast, &Fields::Unit, false, true).unwrap();
    assert_eq!(unit.to_string(), expand_unit_struct(&ast, false, true).to_string());
    let tuple = expand_struct(&ast, &Fields::Tuple(slots(&[None])), false, true).unwrap();
    assert_eq!(
        tuple.to_string(),
        expand_tuple_struct(&ast, &slots(&[None]), false, true).to_string()
    );
    let named = expand_struct(&ast, &Fields::Named(slots(&[Some("a")])), false, true).unwrap();
    assert_eq!(
        named.to_string(),
        expand_struct_struct(&ast, &slots(&[Some("a")]), false, true).unwrap().to_string()
    );
}

#[test]
fn a_nameless_field_of_a_named_struct_is_an_error() {
    let fields = slots(&[Some("a"), None, Some("c"), None]);
    let ast = structure("S", Fields::Named(fields.clone()));
    let expected = ShapeError::MissingFieldName { variant: None, field: 1 };
    assert_eq!(expand_macro(&ast, true, true).err(), Some(expected));
    assert_eq!(expand_macro(&ast, true, false).err(), Some(expected));
    assert_eq!(expand_macro(&ast, false, true).err(), Some(expected));
    assert_eq!(expand_struct_struct(&ast, &fields, false, true).err(), Some(expected));
    assert_eq!(expand_struct(&ast, &Fields::Named(fields), true, false).err(), Some(expected));
    assert_eq!(compile(&ast).err(), Some(expected));
}

#[test]
fn a_nameless_field_of_a_named_variant_is_an_error() {
    let ast = enumeration(
        "E",
        vec![
            ("A", Fields::Tuple(slots(&[None]))),
            ("B", Fields::Named(slots(&[Some("x")]))),
            ("C", Fields::Named(slots(&[Some("x"), Some("y"), None]))),
            ("D", Fields::Named(slots(&[None]))),
        ],
    );
    let expected = ShapeError::MissingFieldName { variant: Some(2), field: 2 };
    assert_eq!(expand_macro(&ast, true, true).err(), Some(expected));
    assert_eq!(compile(&ast).err(), Some(expected));
    assert!(!ast.is_well_formed());
}

#[test]
fn nothing_is_compiled_where_nothing_is_asked_for() {
    let ast = structure("S", Fields::Named(slots(&[None])));
    let tokens = expand_macro(&ast, false, false).unwrap();
    assert_eq!(tokens.to_string(), "");
    let ast = enumeration("E", vec![("A", Fields::Named(slots(&[None])))]);
    let tokens = expand_macro(&ast, false, false).unwrap();
    assert_eq!(tokens.to_string(), "");
}

#[test]
fn tuple_fields_need_no_names_and_may_have_them() {
    let ast = structure("S", Fields::Tuple(slots(&[Some("ignored"), None])));
    assert!(ast.is_well_formed());
    let tokens = expand_macro(&ast, false, true).unwrap();
    assert_eq!(
        tokens.to_string(),
        encoder(
            "S",
            "tokens . append ( \"S\" ) ; tokens . append ( \"(\" ) ; \
             self . 0 . to_custom_tokens ( tokens ) ; tokens . append ( \",\" ) ; \
             self . 1 . to_custom_tokens ( tokens ) ; tokens . append ( \")\" ) ;"
        )
    );
}

#[test]
fn render_plan_writes_one_statement_for_each_step() {
    let plan = Plan::Straight(vec![Step::Append("a b".to_string())]);
    assert_eq!(render_plan(&plan).to_string(), "tokens . append ( \"a b\" ) ;");
    assert_eq!(render_plan(&Plan::Straight(vec![])).to_string(), "");
    assert_eq!(render_plan(&Plan::Match(vec![])).to_string(), "match self { }");
}
