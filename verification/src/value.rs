//! Values by category, and the fragments that each category is encoded to.

use vstd::prelude::*;
use crate::literal::{bool_text, char_debug, char_literal, decimal, str_literal, Integer};
use crate::shape::{Body, Description, Field, Fields};
use crate::sink::text_of;

verus! {

/// A scalar whose slices have a compact form.
#[derive(Clone, Copy, Debug, PartialEq, Eq)]
pub enum Scalar {
    Bool(bool),
    Integer(Integer),
    Char(char),
}

/// The contents of a slice, an array or a growable sequence.
#[derive(Debug)]
pub enum Elements {
    /// Elements of one of the scalar types. They are written in the compact
    /// form, as a single fragment (`[1, 2, 3]`).
    Scalars(Vec<Scalar>),
    /// Elements of any other type, each encoded by its own rule.
    Values(Vec<Value>),
}

/// A value of a user-defined type: the description of the type, and the
/// values of the fields in declaration order.
#[derive(Debug)]
pub struct Custom {
    pub description: Description,
    /// The position of the variant that the value is of. It is read only
    /// where the type is an enum.
    pub variant: usize,
    pub fields: Vec<Value>,
}

/// A value, tagged with its category.
#[derive(Debug)]
pub enum Value {
    /// A boolean, an integer or a character.
    Scalar(Scalar),
    /// A floating-point number, held as the text of its literal (`4.3f64`).
    Float(String),
    /// A string slice.
    StrSlice(String),
    /// An owned string.
    OwnedString(String),
    /// A growable sequence.
    Sequence(Elements),
    /// A slice, or an array of fixed size.
    Slice(Elements),
    /// A tuple of up to thirteen components.
    Tuple(Vec<Value>),
    /// An optional value.
    Optional(Option<Box<Value>>),
    /// A copy-on-write wrapper, holding the borrowed view of what it wraps.
    CopyOnWrite(Box<Value>),
    /// An owning pointer.
    Boxed(Box<Value>),
    /// A single-threaded pointer with shared ownership, and the number of
    /// strong references to what it points to.
    SharedLocal { strong_count: usize, inner: Box<Value> },
    /// A thread-safe pointer with shared ownership, and the number of strong
    /// references to what it points to.
    SharedSync { strong_count: usize, inner: Box<Value> },
    /// A sequence with an inline buffer that holds `inline_size` elements.
    SmallSequence { inline_size: usize, elements: Elements },
    /// An ordered wrapper around a floating-point number, which is held as
    /// the text of its literal.
    OrderedFloat(String),
    /// A hash mapping: its entries in the order in which it yields them.
    HashMapping(Vec<(Value, Value)>),
    /// An ordered mapping: its entries in ascending order of their keys.
    OrderedMapping(Vec<(Value, Value)>),
    /// A reference to a value.
    Reference(Box<Value>),
    /// A value of a user-defined type.
    Custom(Custom),
}

/// Why a value was not encoded.
#[derive(Clone, Copy, Debug, PartialEq, Eq)]
pub enum EncodeError {
    /// The value is not well formed: see [`well_formed`].
    Malformed,
    /// A pointer with shared ownership does not hold the only strong
    /// reference: a fresh pointer would not reproduce what is shared.
    UnsoundOperation,
}

impl EncodeError {
    /// The words of the fault.
    pub open spec fn words(self) -> Seq<char> {
        match self {
            EncodeError::Malformed => "Malformed value"@,
            EncodeError::UnsoundOperation => "Unsound operation"@,
        }
    }

    /// The words of the fault.
    pub fn message(&self) -> (message: &'static str)
        ensures
            message@ == self.words(),
    {
        match self {
            EncodeError::Malformed => "Malformed value",
            EncodeError::UnsoundOperation => "Unsound operation",
        }
    }
}

/// The largest number of components that a tuple may have.
pub const MAX_TUPLE_ARITY: usize = 13;

/// The text of one scalar in the compact form of a slice.
pub open spec fn scalar_debug(s: Scalar) -> Seq<char> {
    match s {
        Scalar::Bool(b) => bool_text(b),
        Scalar::Integer(i) => decimal(i.value()),
        Scalar::Char(c) => char_debug(c),
    }
}

/// The fragment of one scalar on its own.
pub open spec fn scalar_literal(s: Scalar) -> Seq<char> {
    match s {
        Scalar::Bool(b) => bool_text(b),
        Scalar::Integer(i) => i.literal(),
        Scalar::Char(c) => char_literal(c),
    }
}

/// The first `n` scalars in the compact form, a comma and a space between
/// two of them.
pub open spec fn scalars_listed(items: Seq<Scalar>, n: nat) -> Seq<char>
    decreases n,
{
    if n == 0 || n > items.len() {
        Seq::empty()
    } else if n == 1 {
        scalar_debug(items[0])
    } else {
        scalars_listed(items, (n - 1) as nat) + ", "@ + scalar_debug(items[n - 1])
    }
}

/// The compact form of a slice of scalars: the scalars listed, in square
/// brackets.
pub open spec fn scalars_text(items: Seq<Scalar>) -> Seq<char> {
    "["@ + scalars_listed(items, items.len()) + "]"@
}

/// The name that a value of an enum is written under: the names of type and
/// variant as the three fragments `Type`, `::`, `Variant`, held as one.
pub open spec fn variant_path(owner: Seq<char>, variant_name: Seq<char>) -> Seq<char> {
    text_of(seq![owner, "::"@, variant_name])
}

/// The name of a slot of a named shape.
pub open spec fn slot_name(slot: Field) -> Seq<char> {
    slot.name->0@
}

impl Custom {
    /// The fields that the type declares for this value: those of the
    /// struct, or of the value's variant.
    pub open spec fn shape(self) -> Fields {
        match self.description.body {
            Body::Struct(fields) => fields,
            Body::Enum(variants) => variants@[self.variant as int].fields,
        }
    }

    /// The name that the value is written under: that of the struct, or the
    /// path of the value's variant.
    pub open spec fn head(self) -> Seq<char> {
        match self.description.body {
            Body::Struct(_) => self.description.name@,
            Body::Enum(variants) => variant_path(
                self.description.name@,
                variants@[self.variant as int].name@,
            ),
        }
    }

    /// Whether the value fits its description: the description is well
    /// formed, the variant is one of the enum's, and there are as many field
    /// values as the shape has fields.
    pub open spec fn fits(self) -> bool {
        &&& self.description.well_formed()
        &&& self.description.body matches Body::Enum(variants) ==> self.variant < variants@.len()
        &&& self.fields@.len() == self.shape().arity()
    }
}

/// The fragments that a value is encoded to.
pub open spec fn fragments(v: Value) -> Seq<Seq<char>>
    decreases v,
{
    match v {
        Value::Scalar(s) => seq![scalar_literal(s)],
        Value::Float(text) => seq![text@],
        Value::StrSlice(s) => seq![str_literal(s@)],
        Value::OwnedString(s) => seq![str_literal(s@), "."@, "to_string"@, "("@, ")"@],
        Value::Sequence(elements) => seq!["vec!"@] + elements_fragments(elements),
        Value::Slice(elements) => elements_fragments(elements),
        Value::Tuple(items) => seq!["("@] + terminated(items@, items@.len()) + seq![")"@],
        Value::Optional(inner) => match inner {
            Some(x) => seq!["Some"@, "("@] + fragments(*x) + seq![")"@],
            None => seq!["None"@],
        },
        Value::CopyOnWrite(inner) => seq!["::std::borrow::Cow"@, "::"@, "from"@, "("@]
            + fragments(*inner) + seq![")"@],
        Value::Boxed(inner) => seq!["box"@] + fragments(*inner),
        Value::SharedLocal { strong_count, inner } => seq![
            "::std::rc::Rc"@,
            "::"@,
            "new"@,
            "("@,
        ] + fragments(*inner) + seq![")"@],
        Value::SharedSync { strong_count, inner } => seq![
            "::std::sync::Arc"@,
            "::"@,
            "new"@,
            "("@,
        ] + fragments(*inner) + seq![")"@],
        Value::SmallSequence { inline_size, elements } => if elements.len() == 0 {
            seq!["SmallVec"@, "::"@, "new"@, "("@, ")"@]
        } else if inline_size == elements.len() {
            seq!["SmallVec"@, "::"@, "from_buf"@, "("@] + elements_fragments(elements) + seq![
                ")"@,
            ]
        } else {
            seq!["SmallVec"@, "::"@, "from_vec"@, "("@, "vec!"@] + elements_fragments(elements)
                + seq![")"@]
        },
        Value::OrderedFloat(text) => seq![text@, "."@, "into"@, "("@, ")"@],
        Value::HashMapping(entries) => seq![
            "::std::collections::HashMap"@,
            "::"@,
            "from_iter"@,
            "("@,
            "vec!"@,
            "["@,
        ] + entries_terminated(entries@, entries@.len()) + seq!["]"@, ")"@],
        Value::OrderedMapping(entries) => seq![
            "::std::collections::BTreeMap"@,
            "::"@,
            "from_iter"@,
            "("@,
            "vec!"@,
            "["@,
        ] + entries_terminated(entries@, entries@.len()) + seq!["]"@, ")"@],
        Value::Reference(inner) => fragments(*inner),
        Value::Custom(custom) => custom_fragments(custom),
    }
}

impl Elements {
    /// The number of elements.
    pub open spec fn len(self) -> nat {
        match self {
            Elements::Scalars(items) => items@.len(),
            Elements::Values(items) => items@.len(),
        }
    }

    /// The number of elements.
    pub fn count(&self) -> (n: usize)
        ensures
            n == self.len(),
    {
        match self {
            Elements::Scalars(items) => items.len(),
            Elements::Values(items) => items.len(),
        }
    }
}

/// The fragments of the contents of a slice: scalars as the one fragment of
/// their compact form; other elements between square brackets, a separator
/// after each of them.
pub open spec fn elements_fragments(e: Elements) -> Seq<Seq<char>>
    decreases e,
{
    match e {
        Elements::Scalars(items) => seq![scalars_text(items@)],
        Elements::Values(items) => seq!["["@] + terminated(items@, items@.len()) + seq!["]"@],
    }
}

/// The fragments of the first `n` items, a separator after each of them, the
/// last one too.
pub open spec fn terminated(items: Seq<Value>, n: nat) -> Seq<Seq<char>>
    decreases items, n,
{
    if n == 0 || n > items.len() {
        Seq::empty()
    } else {
        terminated(items, (n - 1) as nat) + fragments(items[n - 1]) + seq![","@]
    }
}

/// The fragments of one entry of a mapping: key and value as a tuple of two.
pub open spec fn entry_fragments(entries: Seq<(Value, Value)>, i: int) -> Seq<Seq<char>>
    recommends
        0 <= i < entries.len(),
    decreases entries, 0nat,
    when 0 <= i < entries.len()
{
    seq!["("@] + fragments(entries[i].0) + seq![","@] + fragments(entries[i].1) + seq![
        ","@,
        ")"@,
    ]
}

/// The fragments of the first `n` entries of a mapping, a separator after
/// each of them, the last one too.
pub open spec fn entries_terminated(entries: Seq<(Value, Value)>, n: nat) -> Seq<Seq<char>>
    decreases entries, n + 1,
{
    if n == 0 || n > entries.len() {
        Seq::empty()
    } else {
        entries_terminated(entries, (n - 1) as nat) + entry_fragments(entries, n - 1) + seq![
            ","@,
        ]
    }
}

/// The fragments of the first `n` field values of a tuple shape, a separator
/// after each but the last field of all.
pub open spec fn separated(items: Seq<Value>, n: nat) -> Seq<Seq<char>>
    decreases items, n,
{
    if n == 0 || n > items.len() {
        Seq::empty()
    } else {
        separated(items, (n - 1) as nat) + fragments(items[n - 1]) + if n == items.len() {
            Seq::<Seq<char>>::empty()
        } else {
            seq![","@]
        }
    }
}

/// The fragments of the first `n` fields of a named shape: each as its name,
/// a colon and its value, with a separator after each but the last field of
/// all.
pub open spec fn named_separated(slots: Seq<Field>, items: Seq<Value>, n: nat) -> Seq<Seq<char>>
    decreases items, n,
{
    if n == 0 || n > items.len() {
        Seq::empty()
    } else {
        named_separated(slots, items, (n - 1) as nat) + seq![slot_name(slots[n - 1]), ":"@]
            + fragments(items[n - 1]) + if n == items.len() {
            Seq::<Seq<char>>::empty()
        } else {
            seq![","@]
        }
    }
}

/// The fragments of a value written under `head` whose type declares these
/// fields: the head alone for a unit shape; the head and the field values
/// between round brackets for a tuple shape; the head and, between braces,
/// each field as its name, a colon and its value for a named shape.
pub open spec fn shaped_fragments(head: Seq<char>, shape: Fields, values: Seq<Value>) -> Seq<
    Seq<char>,
>
    decreases values, values.len() + 1,
{
    match shape {
        Fields::Unit => seq![head],
        Fields::Tuple(_) => seq![head, "("@] + separated(values, values.len()) + seq![")"@],
        Fields::Named(slots) => seq![head, "{"@] + named_separated(slots@, values, values.len())
            + seq!["}"@],
    }
}

/// The fragments of a value of a user-defined type: the literal expression
/// that one would write by hand for it.
pub open spec fn custom_fragments(c: Custom) -> Seq<Seq<char>>
    decreases c,
{
    shaped_fragments(c.head(), c.shape(), c.fields@)
}

/// Whether each of the items is well formed.
pub open spec fn all_well_formed(items: Seq<Value>) -> bool
    decreases items,
{
    forall|i: int| 0 <= i < items.len() ==> well_formed(#[trigger] items[i])
}

/// Whether the key and the value of each entry are well formed.
pub open spec fn entries_well_formed(entries: Seq<(Value, Value)>) -> bool
    decreases entries,
{
    forall|i: int|
        0 <= i < entries.len() ==> well_formed((#[trigger] entries[i]).0) && well_formed(
            entries[i].1,
        )
}

/// Whether the elements of a slice are well formed.
pub open spec fn elements_well_formed(e: Elements) -> bool
    decreases e,
{
    match e {
        Elements::Scalars(_) => true,
        Elements::Values(items) => all_well_formed(items@),
    }
}

/// Whether a value is well formed: a tuple has at most thirteen components,
/// a value of a user-defined type fits its description, and the values that
/// it holds are well formed in turn.
pub open spec fn well_formed(v: Value) -> bool
    decreases v,
{
    match v {
        Value::Sequence(elements) => elements_well_formed(elements),
        Value::Slice(elements) => elements_well_formed(elements),
        Value::Tuple(items) => items@.len() <= MAX_TUPLE_ARITY && all_well_formed(items@),
        Value::Optional(inner) => match inner {
            Some(x) => well_formed(*x),
            None => true,
        },
        Value::CopyOnWrite(inner) => well_formed(*inner),
        Value::Boxed(inner) => well_formed(*inner),
        Value::SharedLocal { strong_count, inner } => well_formed(*inner),
        Value::SharedSync { strong_count, inner } => well_formed(*inner),
        Value::SmallSequence { inline_size, elements } => elements_well_formed(elements),
        Value::HashMapping(entries) => entries_well_formed(entries@),
        Value::OrderedMapping(entries) => entries_well_formed(entries@),
        Value::Reference(inner) => well_formed(*inner),
        Value::Custom(custom) => custom_well_formed(custom),
        _ => true,
    }
}

/// Whether a value of a user-defined type is well formed: it fits its
/// description, and the values of its fields are well formed.
pub open spec fn custom_well_formed(c: Custom) -> bool
    decreases c,
{
    c.fits() && all_well_formed(c.fields@)
}

/// Whether each of the items is sound.
pub open spec fn all_sound(items: Seq<Value>) -> bool
    decreases items,
{
    forall|i: int| 0 <= i < items.len() ==> sound(#[trigger] items[i])
}

/// Whether the key and the value of each entry are sound.
pub open spec fn entries_sound(entries: Seq<(Value, Value)>) -> bool
    decreases entries,
{
    forall|i: int|
        0 <= i < entries.len() ==> sound((#[trigger] entries[i]).0) && sound(entries[i].1)
}

/// Whether the elements of a slice are sound.
pub open spec fn elements_sound(e: Elements) -> bool
    decreases e,
{
    match e {
        Elements::Scalars(_) => true,
        Elements::Values(items) => all_sound(items@),
    }
}

/// Whether a value can be reconstructed faithfully: every pointer with
/// shared ownership in it holds the only strong reference to what it points
/// to.
pub open spec fn sound(v: Value) -> bool
    decreases v,
{
    match v {
        Value::Sequence(elements) => elements_sound(elements),
        Value::Slice(elements) => elements_sound(elements),
        Value::Tuple(items) => all_sound(items@),
        Value::Optional(inner) => match inner {
            Some(x) => sound(*x),
            None => true,
        },
        Value::CopyOnWrite(inner) => sound(*inner),
        Value::Boxed(inner) => sound(*inner),
        Value::SharedLocal { strong_count, inner } => strong_count == 1 && sound(*inner),
        Value::SharedSync { strong_count, inner } => strong_count == 1 && sound(*inner),
        Value::SmallSequence { inline_size, elements } => elements_sound(elements),
        Value::HashMapping(entries) => entries_sound(entries@),
        Value::OrderedMapping(entries) => entries_sound(entries@),
        Value::Reference(inner) => sound(*inner),
        Value::Custom(custom) => custom_sound(custom),
        _ => true,
    }
}

/// Whether the values of the fields of a value of a user-defined type are
/// sound.
pub open spec fn custom_sound(c: Custom) -> bool
    decreases c,
{
    all_sound(c.fields@)
}

/// What becomes of an attempt to encode a value: a value that is not well
/// formed is refused as such; a well-formed one that is not sound is refused
/// as unsound; any other is encoded.
pub open spec fn verdict(v: Value) -> Result<(), EncodeError> {
    if !well_formed(v) {
        Err(EncodeError::Malformed)
    } else if !sound(v) {
        Err(EncodeError::UnsoundOperation)
    } else {
        Ok(())
    }
}

/// What becomes of an attempt to encode a value of a user-defined type.
pub open spec fn custom_verdict(c: Custom) -> Result<(), EncodeError> {
    if !custom_well_formed(c) {
        Err(EncodeError::Malformed)
    } else if !custom_sound(c) {
        Err(EncodeError::UnsoundOperation)
    } else {
        Ok(())
    }
}

} // verus!
