//! Structural descriptions: the declared shape of a type, as the front end
//! that parsed its declaration hands it over.

use vstd::prelude::*;

verus! {

/// One field slot. A slot of a tuple shape is known by its position alone; a
/// slot of a named shape must carry its name.
#[derive(Clone, Debug, PartialEq, Eq)]
pub struct Field {
    pub name: Option<String>,
}

/// The fields of a struct or of one enum variant, in declaration order.
#[derive(Clone, Debug, PartialEq, Eq)]
pub enum Fields {
    Unit,
    Tuple(Vec<Field>),
    Named(Vec<Field>),
}

/// One variant of an enum.
#[derive(Clone, Debug, PartialEq, Eq)]
pub struct Variant {
    pub name: String,
    pub fields: Fields,
}

/// What a type is made of.
#[derive(Clone, Debug, PartialEq, Eq)]
pub enum Body {
    Struct(Fields),
    Enum(Vec<Variant>),
}

/// The generic parameters of a type, already written out as the three pieces
/// of text that an implementation header needs. They are never interpreted:
/// each is carried into the generated header as it stands.
#[derive(Clone, Debug, PartialEq, Eq)]
pub struct Generics {
    /// The parameters with their bounds, as they follow `impl`.
    pub impl_generics: String,
    /// The parameters alone, as they follow the type's name.
    pub ty_generics: String,
    /// The `where` clause, or nothing.
    pub where_clause: String,
}

/// The structural description of one type.
#[derive(Clone, Debug, PartialEq, Eq)]
pub struct Description {
    pub name: String,
    pub generics: Generics,
    pub body: Body,
}

/// Why a description cannot be compiled.
#[derive(Clone, Copy, Debug, PartialEq, Eq)]
pub enum ShapeError {
    /// A slot of a named shape has no name. `variant` is the position of the
    /// enum variant that holds it (`None` in a struct), `field` the position
    /// of the slot among the fields.
    MissingFieldName { variant: Option<usize>, field: usize },
}

/// Whether every slot among the first `n` has a name.
pub open spec fn named_up_to(fields: Seq<Field>, n: int) -> bool {
    forall|i: int| 0 <= i < n && i < fields.len() ==> (#[trigger] fields[i]).name is Some
}

/// Whether every slot has a name.
pub open spec fn all_named(fields: Seq<Field>) -> bool {
    named_up_to(fields, fields.len() as int)
}

/// Whether `i` is the position of the first slot without a name.
pub open spec fn is_first_nameless(fields: Seq<Field>, i: int) -> bool {
    &&& 0 <= i < fields.len()
    &&& fields[i].name is None
    &&& named_up_to(fields, i)
}

impl Fields {
    /// The number of fields.
    pub open spec fn arity(self) -> nat {
        match self {
            Fields::Unit => 0,
            Fields::Tuple(fields) => fields@.len(),
            Fields::Named(fields) => fields@.len(),
        }
    }

    /// A named shape is well formed when each of its slots has a name. The
    /// other shapes always are.
    pub open spec fn well_formed(self) -> bool {
        match self {
            Fields::Named(fields) => all_named(fields@),
            _ => true,
        }
    }

    /// Whether the fields are well formed.
    pub fn is_well_formed(&self) -> (b: bool)
        ensures
            b == self.well_formed(),
    {
        match self {
            Fields::Named(fields) => first_nameless(fields.as_slice()).is_none(),
            _ => true,
        }
    }

    /// The number of fields.
    pub fn len(&self) -> (n: usize)
        ensures
            n == self.arity(),
    {
        match self {
            Fields::Unit => 0,
            Fields::Tuple(fields) => fields.len(),
            Fields::Named(fields) => fields.len(),
        }
    }
}

/// Whether each of the first `n` variants is well formed.
pub open spec fn variants_well_formed_up_to(variants: Seq<Variant>, n: int) -> bool {
    forall|v: int|
        0 <= v < n && v < variants.len() ==> (#[trigger] variants[v]).fields.well_formed()
}

/// Whether `v` is the position of the first variant that is not well formed.
pub open spec fn is_first_malformed(variants: Seq<Variant>, v: int) -> bool {
    &&& 0 <= v < variants.len()
    &&& !variants[v].fields.well_formed()
    &&& variants_well_formed_up_to(variants, v)
}

impl Body {
    /// A body is well formed when the fields of the struct, or of every
    /// variant of the enum, are.
    pub open spec fn well_formed(self) -> bool {
        match self {
            Body::Struct(fields) => fields.well_formed(),
            Body::Enum(variants) => variants_well_formed_up_to(
                variants@,
                variants@.len() as int,
            ),
        }
    }
}

impl Description {
    /// A description is well formed when its body is.
    pub open spec fn well_formed(self) -> bool {
        self.body.well_formed()
    }

    /// Whether the description is well formed.
    pub fn is_well_formed(&self) -> (b: bool)
        ensures
            b == self.well_formed(),
    {
        match &self.body {
            Body::Struct(fields) => fields.is_well_formed(),
            Body::Enum(variants) => first_malformed(variants.as_slice()).is_none(),
        }
    }
}

/// The position of the first variant that is not well formed, if there is
/// one.
pub fn first_malformed(variants: &[Variant]) -> (found: Option<usize>)
    ensures
        found is None <==> variants_well_formed_up_to(variants@, variants@.len() as int),
        found matches Some(v) ==> is_first_malformed(variants@, v as int),
{
    let mut v: usize = 0;
    while v < variants.len()
        invariant
            v <= variants.len(),
            variants_well_formed_up_to(variants@, v as int),
        decreases variants.len() - v,
    {
        if !variants[v].fields.is_well_formed() {
            return Some(v);
        }
        v += 1;
    }
    None
}

/// The position of the first slot without a name, if there is one.
pub fn first_nameless(fields: &[Field]) -> (found: Option<usize>)
    ensures
        found is None <==> all_named(fields@),
        found matches Some(i) ==> is_first_nameless(fields@, i as int),
{
    let mut i: usize = 0;
    while i < fields.len()
        invariant
            i <= fields.len(),
            named_up_to(fields@, i as int),
        decreases fields.len() - i,
    {
        if fields[i].name.is_none() {
            return Some(i);
        }
        i += 1;
    }
    None
}

} // verus!
