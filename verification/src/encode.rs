//! The encoder: appends to a sink the fragments of a value.

use vstd::prelude::*;
use vstd::string::StringExecFns;
use crate::literal::{
    append_char_literal, append_str_literal, bool_str, debug_char, push_decimal, str_literal,
};
use crate::plan::{compile, Plan, Step};
use crate::run::{in_range, lemma_plan_emits_literal, run};
use crate::shape::Body;
use crate::sink::{append, group_joined, joined_all, rendered};
use crate::value::{
    all_sound, all_well_formed, custom_fragments, custom_sound, custom_verdict, custom_well_formed,
    elements_fragments, elements_sound, elements_well_formed, entries_sound, entries_terminated,
    entries_well_formed, entry_fragments, fragments, scalar_debug, scalar_literal, scalars_listed,
    scalars_text, sound, terminated, verdict, well_formed, Custom, Elements, EncodeError, Scalar,
    Value, MAX_TUPLE_ARITY,
};

verus! {

broadcast use group_joined;

/// What can be encoded: appended to a sink as the fragments of an expression
/// that evaluates to an equal value.
pub trait ToCustomTokens {
    /// The fragments that the value is encoded to.
    spec fn encoding(&self) -> Seq<Seq<char>>;

    /// What becomes of an attempt to encode the value.
    spec fn outcome(&self) -> Result<(), EncodeError>;

    /// Appends the fragments of the value to the sink. A value that cannot
    /// be encoded is refused, and the sink is left as it was.
    fn to_custom_tokens(&self, tokens: &mut quote::Tokens) -> (done: Result<(), EncodeError>)
        ensures
            done == self.outcome(),
            done is Ok ==> rendered(*final(tokens)) == joined_all(
                rendered(*old(tokens)),
                self.encoding(),
            ),
            done is Err ==> rendered(*final(tokens)) == rendered(*old(tokens)),
    ;
}

/// The text of one scalar in the compact form of a slice.
fn scalar_debug_text(s: &Scalar) -> (text: String)
    ensures
        text@ == scalar_debug(*s),
{
    match s {
        Scalar::Bool(b) => String::from_str(bool_str(*b)),
        Scalar::Integer(i) => {
            let mut text = String::new();
            push_decimal(i.widened(), &mut text);
            assert(text@ =~= scalar_debug(*s));
            text
        },
        Scalar::Char(c) => debug_char(*c),
    }
}

/// The compact form of a slice of scalars.
fn scalars_compact(items: &Vec<Scalar>) -> (text: String)
    ensures
        text@ == scalars_text(items@),
{
    let mut text = String::from_str("[");
    let mut i: usize = 0;
    assert(text@ =~= "["@ + scalars_listed(items@, 0));
    while i < items.len()
        invariant
            i <= items.len(),
            text@ == "["@ + scalars_listed(items@, i as nat),
        decreases items.len() - i,
    {
        if i > 0 {
            text.append(", ");
        }
        text.append(scalar_debug_text(&items[i]).as_str());
        i += 1;
        assert(text@ =~= "["@ + scalars_listed(items@, i as nat));
    }
    text.append("]");
    text
}

/// Appends the literal of a scalar.
fn emit_scalar(s: &Scalar, tokens: &mut quote::Tokens)
    ensures
        rendered(*final(tokens)) == joined_all(rendered(*old(tokens)), seq![scalar_literal(*s)]),
{
    match s {
        Scalar::Bool(b) => append(tokens, bool_str(*b)),
        Scalar::Integer(i) => append(tokens, i.to_literal().as_str()),
        Scalar::Char(c) => append_char_literal(tokens, *c),
    }
}

/// Appends the fragments of each item, and a separator after each.
fn emit_terminated(items: &Vec<Value>, tokens: &mut quote::Tokens)
    requires
        all_well_formed(items@),
    ensures
        rendered(*final(tokens)) == joined_all(
            rendered(*old(tokens)),
            terminated(items@, items@.len()),
        ),
    decreases items, 0nat,
{
    let ghost start = rendered(*tokens);
    let mut i: usize = 0;
    while i < items.len()
        invariant
            i <= items.len(),
            all_well_formed(items@),
            rendered(*tokens) == joined_all(start, terminated(items@, i as nat)),
        decreases items.len() - i,
    {
        emit(&items[i], tokens);
        append(tokens, ",");
        i += 1;
    }
}

/// Appends each entry of a mapping as a tuple of key and value, and a
/// separator after each.
fn emit_entries(entries: &Vec<(Value, Value)>, tokens: &mut quote::Tokens)
    requires
        entries_well_formed(entries@),
    ensures
        rendered(*final(tokens)) == joined_all(
            rendered(*old(tokens)),
            entries_terminated(entries@, entries@.len()),
        ),
    decreases entries, 0nat,
{
    let ghost start = rendered(*tokens);
    let mut i: usize = 0;
    while i < entries.len()
        invariant
            i <= entries.len(),
            entries_well_formed(entries@),
            rendered(*tokens) == joined_all(start, entries_terminated(entries@, i as nat)),
        decreases entries.len() - i,
    {
        append(tokens, "(");
        emit(&entries[i].0, tokens);
        append(tokens, ",");
        emit(&entries[i].1, tokens);
        append(tokens, ",");
        append(tokens, ")");
        append(tokens, ",");
        assert(entry_fragments(entries@, i as int) == seq!["("@] + fragments(entries@[i as int].0)
            + seq![","@] + fragments(entries@[i as int].1) + seq![","@, ")"@]);
        i += 1;
    }
}

/// Appends the contents of a slice: scalars in their compact form, other
/// elements between square brackets with a separator after each.
fn emit_elements(elements: &Elements, tokens: &mut quote::Tokens)
    requires
        elements_well_formed(*elements),
    ensures
        rendered(*final(tokens)) == joined_all(
            rendered(*old(tokens)),
            elements_fragments(*elements),
        ),
    decreases elements, 0nat,
{
    match elements {
        Elements::Scalars(items) => {
            append(tokens, scalars_compact(items).as_str());
        },
        Elements::Values(items) => {
            append(tokens, "[");
            emit_terminated(items, tokens);
            append(tokens, "]");
        },
    }
}

/// Runs the steps of a plan against the field values of a value.
fn run_steps(steps: &Vec<Step>, fields: &Vec<Value>, tokens: &mut quote::Tokens)
    requires
        in_range(steps.deep_view(), fields@.len()),
        all_well_formed(fields@),
    ensures
        rendered(*final(tokens)) == joined_all(
            rendered(*old(tokens)),
            run(steps.deep_view(), fields@),
        ),
    decreases fields, 0nat,
{
    let ghost start = rendered(*tokens);
    let ghost all = steps.deep_view();
    let mut i: usize = 0;
    assert(all.take(0) =~= Seq::empty());
    while i < steps.len()
        invariant
            i <= steps.len(),
            all == steps.deep_view(),
            in_range(all, fields@.len()),
            all_well_formed(fields@),
            rendered(*tokens) == joined_all(start, run(all.take(i as int), fields@)),
        decreases steps.len() - i,
    {
        assert(all[i as int] == steps@[i as int].deep_view());
        match &steps[i] {
            Step::Append(fragment) => {
                append(tokens, fragment.as_str());
            },
            Step::Delegate(_, position) => {
                emit(&fields[*position], tokens);
            },
        }
        proof {
            assert(all.take(i + 1).drop_last() =~= all.take(i as int));
            assert(all.take(i + 1).last() == all[i as int]);
        }
        i += 1;
    }
    assert(all.take(steps.len() as int) =~= all);
}

/// Appends the fragments of a value of a user-defined type: compiles the
/// plan of its description, and runs the steps that the plan holds for the
/// value's variant.
fn emit_custom(custom: &Custom, tokens: &mut quote::Tokens)
    requires
        custom_well_formed(*custom),
    ensures
        rendered(*final(tokens)) == joined_all(rendered(*old(tokens)), custom_fragments(*custom)),
    decreases custom, 0nat,
{
    proof {
        lemma_plan_emits_literal(*custom);
    }
    match compile(&custom.description) {
        Ok(Plan::Straight(steps)) => {
            run_steps(&steps, &custom.fields, tokens);
        },
        Ok(Plan::Match(arms)) => {
            assert(arms.deep_view().len() == arms@.len());
            assert(arms.deep_view()[custom.variant as int]
                == arms@[custom.variant as int].deep_view());
            run_steps(&arms[custom.variant].steps, &custom.fields, tokens);
        },
        // A well-formed description always compiles.
        Err(_) => {},
    }
}

/// Appends the fragments of a well-formed value, by its category.
fn emit(v: &Value, tokens: &mut quote::Tokens)
    requires
        well_formed(*v),
    ensures
        rendered(*final(tokens)) == joined_all(rendered(*old(tokens)), fragments(*v)),
    decreases v, 0nat,
{
    match v {
        Value::Scalar(s) => emit_scalar(s, tokens),
        Value::Float(text) => append(tokens, text.as_str()),
        Value::StrSlice(s) => append_str_literal(tokens, s.as_str()),
        Value::OwnedString(s) => emit_owned_string(s.as_str(), tokens),
        Value::Sequence(elements) => emit_sequence(elements, tokens),
        Value::Slice(elements) => emit_elements(elements, tokens),
        Value::Tuple(items) => emit_tuple(items, tokens),
        Value::Optional(inner) => emit_optional(inner, tokens),
        Value::CopyOnWrite(inner) => emit_copy_on_write(inner, tokens),
        Value::Boxed(inner) => emit_boxed(inner, tokens),
        Value::SharedLocal { strong_count, inner } => emit_shared_local(inner, tokens),
        Value::SharedSync { strong_count, inner } => emit_shared_sync(inner, tokens),
        Value::SmallSequence { inline_size, elements } => {
            emit_small_sequence(*inline_size, elements, tokens);
        },
        Value::OrderedFloat(text) => emit_ordered_float(text.as_str(), tokens),
        Value::HashMapping(entries) => emit_hash_mapping(entries, tokens),
        Value::OrderedMapping(entries) => emit_ordered_mapping(entries, tokens),
        Value::Reference(inner) => emit(inner, tokens),
        Value::Custom(custom) => emit_custom(custom, tokens),
    }
}

/// Appends an owned string: its literal, and the call that makes an owned
/// string of it.
fn emit_owned_string(s: &str, tokens: &mut quote::Tokens)
    ensures
        rendered(*final(tokens)) == joined_all(
            rendered(*old(tokens)),
            seq![str_literal(s@), "."@, "to_string"@, "("@, ")"@],
        ),
{
    append_str_literal(tokens, s);
    append(tokens, ".");
    append(tokens, "to_string");
    append(tokens, "(");
    append(tokens, ")");
}

/// Appends an ordered float: the literal of the number, and the call that
/// converts it.
fn emit_ordered_float(literal: &str, tokens: &mut quote::Tokens)
    ensures
        rendered(*final(tokens)) == joined_all(
            rendered(*old(tokens)),
            seq![literal@, "."@, "into"@, "("@, ")"@],
        ),
{
    append(tokens, literal);
    append(tokens, ".");
    append(tokens, "into");
    append(tokens, "(");
    append(tokens, ")");
}

/// Appends a growable sequence: the name of the macro that builds one, and
/// the contents as a slice.
fn emit_sequence(elements: &Elements, tokens: &mut quote::Tokens)
    requires
        elements_well_formed(*elements),
    ensures
        rendered(*final(tokens)) == joined_all(
            rendered(*old(tokens)),
            seq!["vec!"@] + elements_fragments(*elements),
        ),
    decreases elements, 1nat,
{
    append(tokens, "vec!");
    emit_elements(elements, tokens);
}

/// Appends a tuple: between round brackets, each component followed by a
/// separator.
fn emit_tuple(items: &Vec<Value>, tokens: &mut quote::Tokens)
    requires
        all_well_formed(items@),
    ensures
        rendered(*final(tokens)) == joined_all(
            rendered(*old(tokens)),
            seq!["("@] + terminated(items@, items@.len()) + seq![")"@],
        ),
    decreases items, 1nat,
{
    append(tokens, "(");
    emit_terminated(items, tokens);
    append(tokens, ")");
}

/// Appends an optional value: `Some` around the value that is there, `None`
/// where there is none.
fn emit_optional(inner: &Option<Box<Value>>, tokens: &mut quote::Tokens)
    requires
        inner matches Some(value) ==> well_formed(**value),
    ensures
        rendered(*final(tokens)) == joined_all(
            rendered(*old(tokens)),
            match inner {
                Some(value) => seq!["Some"@, "("@] + fragments(**value) + seq![")"@],
                None => seq!["None"@],
            },
        ),
    decreases inner, 0nat,
{
    match inner {
        Some(value) => {
            append(tokens, "Some");
            append(tokens, "(");
            emit(value, tokens);
            append(tokens, ")");
        },
        None => {
            append(tokens, "None");
        },
    }
}

/// Appends a call of the constructor at `path` on the value: the path, the
/// separator of paths, the constructor's name, and the value between round
/// brackets.
fn emit_constructed(path: &str, constructor: &str, inner: &Value, tokens: &mut quote::Tokens)
    requires
        well_formed(*inner),
    ensures
        rendered(*final(tokens)) == joined_all(
            rendered(*old(tokens)),
            seq![path@, "::"@, constructor@, "("@] + fragments(*inner) + seq![")"@],
        ),
    decreases inner, 1nat,
{
    append(tokens, path);
    append(tokens, "::");
    append(tokens, constructor);
    append(tokens, "(");
    emit(inner, tokens);
    append(tokens, ")");
}

/// Appends a copy-on-write wrapper: the conversion from the borrowed view.
fn emit_copy_on_write(inner: &Value, tokens: &mut quote::Tokens)
    requires
        well_formed(*inner),
    ensures
        rendered(*final(tokens)) == joined_all(
            rendered(*old(tokens)),
            seq!["::std::borrow::Cow"@, "::"@, "from"@, "("@] + fragments(*inner) + seq![")"@],
        ),
    decreases inner, 2nat,
{
    emit_constructed("::std::borrow::Cow", "from", inner, tokens);
}

/// Appends an owning pointer: the keyword that boxes, and the value.
fn emit_boxed(inner: &Value, tokens: &mut quote::Tokens)
    requires
        well_formed(*inner),
    ensures
        rendered(*final(tokens)) == joined_all(
            rendered(*old(tokens)),
            seq!["box"@] + fragments(*inner),
        ),
    decreases inner, 1nat,
{
    append(tokens, "box");
    emit(inner, tokens);
}

/// Appends a single-threaded pointer with shared ownership: a fresh pointer
/// to the value.
fn emit_shared_local(inner: &Value, tokens: &mut quote::Tokens)
    requires
        well_formed(*inner),
    ensures
        rendered(*final(tokens)) == joined_all(
            rendered(*old(tokens)),
            seq!["::std::rc::Rc"@, "::"@, "new"@, "("@] + fragments(*inner) + seq![")"@],
        ),
    decreases inner, 2nat,
{
    emit_constructed("::std::rc::Rc", "new", inner, tokens);
}

/// Appends a thread-safe pointer with shared ownership: a fresh pointer to
/// the value.
fn emit_shared_sync(inner: &Value, tokens: &mut quote::Tokens)
    requires
        well_formed(*inner),
    ensures
        rendered(*final(tokens)) == joined_all(
            rendered(*old(tokens)),
            seq!["::std::sync::Arc"@, "::"@, "new"@, "("@] + fragments(*inner) + seq![")"@],
        ),
    decreases inner, 2nat,
{
    emit_constructed("::std::sync::Arc", "new", inner, tokens);
}

/// Appends a mapping of the type at `path`: the call of `from_iter` on a
/// sequence of the entries, each entry a tuple of key and value.
fn emit_mapping(path: &str, entries: &Vec<(Value, Value)>, tokens: &mut quote::Tokens)
    requires
        entries_well_formed(entries@),
    ensures
        rendered(*final(tokens)) == joined_all(
            rendered(*old(tokens)),
            seq![path@, "::"@, "from_iter"@, "("@, "vec!"@, "["@] + entries_terminated(
                entries@,
                entries@.len(),
            ) + seq!["]"@, ")"@],
        ),
    decreases entries, 1nat,
{
    append(tokens, path);
    append(tokens, "::");
    append(tokens, "from_iter");
    append(tokens, "(");
    append(tokens, "vec!");
    append(tokens, "[");
    emit_entries(entries, tokens);
    append(tokens, "]");
    append(tokens, ")");
}

/// Appends a hash mapping, its entries in the order given.
fn emit_hash_mapping(entries: &Vec<(Value, Value)>, tokens: &mut quote::Tokens)
    requires
        entries_well_formed(entries@),
    ensures
        rendered(*final(tokens)) == joined_all(
            rendered(*old(tokens)),
            fragments(Value::HashMapping(*entries)),
        ),
    decreases entries, 2nat,
{
    emit_mapping("::std::collections::HashMap", entries, tokens);
}

/// Appends an ordered mapping, its entries in the order given.
fn emit_ordered_mapping(entries: &Vec<(Value, Value)>, tokens: &mut quote::Tokens)
    requires
        entries_well_formed(entries@),
    ensures
        rendered(*final(tokens)) == joined_all(
            rendered(*old(tokens)),
            fragments(Value::OrderedMapping(*entries)),
        ),
    decreases entries, 2nat,
{
    emit_mapping("::std::collections::BTreeMap", entries, tokens);
}

/// Appends the fragments of a sequence with an inline buffer: `new()` for
/// an empty one, `from_buf` on the contents where they fill the buffer
/// exactly, `from_vec` on a growable sequence of the contents otherwise.
fn emit_small_sequence(inline_size: usize, elements: &Elements, tokens: &mut quote::Tokens)
    requires
        elements_well_formed(*elements),
    ensures
        rendered(*final(tokens)) == joined_all(
            rendered(*old(tokens)),
            fragments(Value::SmallSequence { inline_size, elements: *elements }),
        ),
    decreases elements, 1nat,
{
    let len = elements.count();
    append(tokens, "SmallVec");
    append(tokens, "::");
    if len == 0 {
        append(tokens, "new");
        append(tokens, "(");
        append(tokens, ")");
    } else if inline_size == len {
        append(tokens, "from_buf");
        append(tokens, "(");
        emit_elements(elements, tokens);
        append(tokens, ")");
    } else {
        append(tokens, "from_vec");
        append(tokens, "(");
        append(tokens, "vec!");
        emit_elements(elements, tokens);
        append(tokens, ")");
    }
}

/// Whether each of the items is well formed.
fn all_are_well_formed(items: &Vec<Value>) -> (b: bool)
    ensures
        b == all_well_formed(items@),
    decreases items,
{
    let mut i: usize = 0;
    while i < items.len()
        invariant
            i <= items.len(),
            forall|j: int| 0 <= j < i ==> well_formed(#[trigger] items@[j]),
        decreases items.len() - i,
    {
        if !items[i].is_well_formed() {
            return false;
        }
        i += 1;
    }
    true
}

/// Whether the key and the value of each entry are well formed.
fn entries_are_well_formed(entries: &Vec<(Value, Value)>) -> (b: bool)
    ensures
        b == entries_well_formed(entries@),
    decreases entries,
{
    let mut i: usize = 0;
    while i < entries.len()
        invariant
            i <= entries.len(),
            forall|j: int|
                0 <= j < i ==> well_formed((#[trigger] entries@[j]).0) && well_formed(
                    entries@[j].1,
                ),
        decreases entries.len() - i,
    {
        if !entries[i].0.is_well_formed() || !entries[i].1.is_well_formed() {
            return false;
        }
        i += 1;
    }
    true
}

/// Whether each of the items is sound.
fn all_are_sound(items: &Vec<Value>) -> (b: bool)
    ensures
        b == all_sound(items@),
    decreases items,
{
    let mut i: usize = 0;
    while i < items.len()
        invariant
            i <= items.len(),
            forall|j: int| 0 <= j < i ==> sound(#[trigger] items@[j]),
        decreases items.len() - i,
    {
        if !items[i].is_sound() {
            return false;
        }
        i += 1;
    }
    true
}

/// Whether the key and the value of each entry are sound.
fn entries_are_sound(entries: &Vec<(Value, Value)>) -> (b: bool)
    ensures
        b == entries_sound(entries@),
    decreases entries,
{
    let mut i: usize = 0;
    while i < entries.len()
        invariant
            i <= entries.len(),
            forall|j: int|
                0 <= j < i ==> sound((#[trigger] entries@[j]).0) && sound(entries@[j].1),
        decreases entries.len() - i,
    {
        if !entries[i].0.is_sound() || !entries[i].1.is_sound() {
            return false;
        }
        i += 1;
    }
    true
}

impl Elements {
    /// Whether the elements are well formed.
    pub fn is_well_formed(&self) -> (b: bool)
        ensures
            b == elements_well_formed(*self),
        decreases self,
    {
        match self {
            Elements::Scalars(_) => true,
            Elements::Values(items) => all_are_well_formed(items),
        }
    }

    /// Whether the elements are sound.
    pub fn is_sound(&self) -> (b: bool)
        ensures
            b == elements_sound(*self),
        decreases self,
    {
        match self {
            Elements::Scalars(_) => true,
            Elements::Values(items) => all_are_sound(items),
        }
    }
}

impl Custom {
    /// Whether the value fits its description.
    pub fn is_fitting(&self) -> (b: bool)
        ensures
            b == self.fits(),
    {
        if !self.description.is_well_formed() {
            return false;
        }
        match &self.description.body {
            Body::Struct(fields) => self.fields.len() == fields.len(),
            Body::Enum(variants) => self.variant < variants.len() && self.fields.len()
                == variants[self.variant].fields.len(),
        }
    }

    /// Whether the value is well formed.
    pub fn is_well_formed(&self) -> (b: bool)
        ensures
            b == custom_well_formed(*self),
        decreases self,
    {
        self.is_fitting() && all_are_well_formed(&self.fields)
    }

    /// Whether the value is sound.
    pub fn is_sound(&self) -> (b: bool)
        ensures
            b == custom_sound(*self),
        decreases self,
    {
        all_are_sound(&self.fields)
    }

    /// The generic entry point. For a value of a user-defined type it does
    /// what [`ToCustomTokens::to_custom_tokens`] does.
    pub fn to_tokens(&self, tokens: &mut quote::Tokens) -> (done: Result<(), EncodeError>)
        ensures
            done == custom_verdict(*self),
            done is Ok ==> rendered(*final(tokens)) == joined_all(
                rendered(*old(tokens)),
                custom_fragments(*self),
            ),
            done is Err ==> rendered(*final(tokens)) == rendered(*old(tokens)),
    {
        self.to_custom_tokens(tokens)
    }
}

impl Value {
    /// Whether the value is well formed.
    pub fn is_well_formed(&self) -> (b: bool)
        ensures
            b == well_formed(*self),
        decreases self,
    {
        match self {
            Value::Sequence(elements) => elements.is_well_formed(),
            Value::Slice(elements) => elements.is_well_formed(),
            Value::Tuple(items) => items.len() <= MAX_TUPLE_ARITY && all_are_well_formed(items),
            Value::Optional(inner) => match inner {
                Some(value) => value.is_well_formed(),
                None => true,
            },
            Value::CopyOnWrite(inner) => inner.is_well_formed(),
            Value::Boxed(inner) => inner.is_well_formed(),
            Value::SharedLocal { strong_count, inner } => inner.is_well_formed(),
            Value::SharedSync { strong_count, inner } => inner.is_well_formed(),
            Value::SmallSequence { inline_size, elements } => elements.is_well_formed(),
            Value::HashMapping(entries) => entries_are_well_formed(entries),
            Value::OrderedMapping(entries) => entries_are_well_formed(entries),
            Value::Reference(inner) => inner.is_well_formed(),
            Value::Custom(custom) => custom.is_well_formed(),
            _ => true,
        }
    }

    /// Whether the value is sound.
    pub fn is_sound(&self) -> (b: bool)
        ensures
            b == sound(*self),
        decreases self,
    {
        match self {
            Value::Sequence(elements) => elements.is_sound(),
            Value::Slice(elements) => elements.is_sound(),
            Value::Tuple(items) => all_are_sound(items),
            Value::Optional(inner) => match inner {
                Some(value) => value.is_sound(),
                None => true,
            },
            Value::CopyOnWrite(inner) => inner.is_sound(),
            Value::Boxed(inner) => inner.is_sound(),
            Value::SharedLocal { strong_count, inner } => *strong_count == 1 && inner.is_sound(),
            Value::SharedSync { strong_count, inner } => *strong_count == 1 && inner.is_sound(),
            Value::SmallSequence { inline_size, elements } => elements.is_sound(),
            Value::HashMapping(entries) => entries_are_sound(entries),
            Value::OrderedMapping(entries) => entries_are_sound(entries),
            Value::Reference(inner) => inner.is_sound(),
            Value::Custom(custom) => custom.is_sound(),
            _ => true,
        }
    }
}

impl ToCustomTokens for Value {
    open spec fn encoding(&self) -> Seq<Seq<char>> {
        fragments(*self)
    }

    open spec fn outcome(&self) -> Result<(), EncodeError> {
        verdict(*self)
    }

    fn to_custom_tokens(&self, tokens: &mut quote::Tokens) -> (done: Result<(), EncodeError>) {
        if !self.is_well_formed() {
            Err(EncodeError::Malformed)
        } else if !self.is_sound() {
            Err(EncodeError::UnsoundOperation)
        } else {
            emit(self, tokens);
            Ok(())
        }
    }
}

impl ToCustomTokens for Custom {
    open spec fn encoding(&self) -> Seq<Seq<char>> {
        custom_fragments(*self)
    }

    open spec fn outcome(&self) -> Result<(), EncodeError> {
        custom_verdict(*self)
    }

    fn to_custom_tokens(&self, tokens: &mut quote::Tokens) -> (done: Result<(), EncodeError>) {
        if !self.is_well_formed() {
            Err(EncodeError::Malformed)
        } else if !self.is_sound() {
            Err(EncodeError::UnsoundOperation)
        } else {
            emit_custom(self, tokens);
            Ok(())
        }
    }
}

} // verus!
