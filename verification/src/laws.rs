//! What holds of every encoding.

use vstd::prelude::*;
use crate::shape::Fields;
use crate::sink::joined_all;
use crate::value::{
    custom_fragments, elements_fragments, entries_terminated, entry_fragments, fragments,
    named_separated, separated, shaped_fragments, slot_name, terminated, verdict, Custom, Elements,
    EncodeError, Value,
};

verus! {

/// Whether `whole` ends with `tail`.
pub open spec fn ends_with(whole: Seq<Seq<char>>, tail: Seq<Seq<char>>) -> bool {
    tail.len() <= whole.len() && whole.subrange(whole.len() - tail.len(), whole.len() as int)
        == tail
}

/// The delimiter that closes the field list of a shape.
pub open spec fn closing(shape: Fields) -> Seq<char> {
    match shape {
        Fields::Named(_) => "}"@,
        _ => ")"@,
    }
}

/// Whether text `after` and result `done` are what encoding `v` into a sink
/// that held `before` may leave: the contract of
/// [`crate::encode::ToCustomTokens::to_custom_tokens`] for a value.
pub open spec fn encodes(
    v: Value,
    before: Seq<char>,
    done: Result<(), EncodeError>,
    after: Seq<char>,
) -> bool {
    &&& done == verdict(v)
    &&& done is Ok ==> after == joined_all(before, fragments(v))
    &&& done is Err ==> after == before
}

/// A value of a user-defined type is encoded to its literal expression: the
/// name alone for a unit shape; the name and the fields between round
/// brackets for a tuple shape; the name and, between braces, each field as
/// its name, a colon and its value for a named shape. Two fields have a
/// separator between them.
pub proof fn lemma_custom_is_literal(c: Custom)
    ensures
        fragments(Value::Custom(c)) == shaped_fragments(c.head(), c.shape(), c.fields@),
        forall|i: int|
            0 <= i < c.fields@.len() - 1 ==> #[trigger] separated(c.fields@, (i + 1) as nat)
                == separated(c.fields@, i as nat) + fragments(c.fields@[i]) + seq![","@],
{
    assert(fragments(Value::Custom(c)) == custom_fragments(c));
}

/// No separator stands between the last field and the closing delimiter:
/// the encoding of a value with fields ends with the fragments of its last
/// field and the delimiter.
pub proof fn lemma_fields_end_without_separator(c: Custom)
    requires
        c.shape() !is Unit,
        c.fields@.len() > 0,
    ensures
        ends_with(custom_fragments(c), fragments(c.fields@.last()) + seq![closing(c.shape())]),
{
    let n = c.fields@.len();
    let last = fragments(c.fields@.last());
    let tail = last + seq![closing(c.shape())];
    let whole = custom_fragments(c);
    match c.shape() {
        Fields::Unit => {},
        Fields::Tuple(_) => {
            let before = seq![c.head(), "("@] + separated(c.fields@, (n - 1) as nat);
            assert(whole =~= before + tail);
            assert(whole.subrange(whole.len() - tail.len(), whole.len() as int) =~= tail);
        },
        Fields::Named(slots) => {
            let before = seq![c.head(), "{"@] + named_separated(
                slots@,
                c.fields@,
                (n - 1) as nat,
            ) + seq![slot_name(slots@[n - 1]), ":"@];
            assert(whole =~= before + tail);
            assert(whole.subrange(whole.len() - tail.len(), whole.len() as int) =~= tail);
        },
    }
}

/// Every component of a tuple is followed by a separator, the last one too:
/// the encoding of a tuple with components ends with the fragments of its
/// last component, a separator and the closing bracket.
pub proof fn lemma_tuple_ends_with_separator(items: Vec<Value>)
    requires
        items@.len() > 0,
    ensures
        ends_with(
            fragments(Value::Tuple(items)),
            fragments(items@.last()) + seq![","@, ")"@],
        ),
        forall|i: int|
            0 <= i < items@.len() ==> #[trigger] terminated(items@, (i + 1) as nat) == terminated(
                items@,
                i as nat,
            ) + fragments(items@[i]) + seq![","@],
{
    let n = items@.len();
    let tail = fragments(items@.last()) + seq![","@, ")"@];
    let whole = fragments(Value::Tuple(items));
    let before = seq!["("@] + terminated(items@, (n - 1) as nat);
    assert(terminated(items@, n) == terminated(items@, (n - 1) as nat) + fragments(items@[n - 1])
        + seq![","@]);
    assert(whole == seq!["("@] + terminated(items@, n) + seq![")"@]);
    assert(whole =~= before + tail);
    assert(whole.subrange(whole.len() - tail.len(), whole.len() as int) =~= tail);
}

/// Every element of a slice that is written element by element is followed
/// by a separator, the last one too.
pub proof fn lemma_slice_ends_with_separator(items: Vec<Value>)
    requires
        items@.len() > 0,
    ensures
        ends_with(
            elements_fragments(Elements::Values(items)),
            fragments(items@.last()) + seq![","@, "]"@],
        ),
{
    let n = items@.len();
    let tail = fragments(items@.last()) + seq![","@, "]"@];
    let whole = elements_fragments(Elements::Values(items));
    let before = seq!["["@] + terminated(items@, (n - 1) as nat);
    assert(terminated(items@, n) == terminated(items@, (n - 1) as nat) + fragments(items@[n - 1])
        + seq![","@]);
    assert(whole =~= before + tail);
    assert(whole.subrange(whole.len() - tail.len(), whole.len() as int) =~= tail);
}

/// Every entry of a mapping is written as a tuple of key and value, each
/// followed by a separator, and is itself followed by a separator.
pub proof fn lemma_entries_end_with_separator(entries: Seq<(Value, Value)>, i: int)
    requires
        0 <= i < entries.len(),
    ensures
        entries_terminated(entries, (i + 1) as nat) == entries_terminated(entries, i as nat)
            + entry_fragments(entries, i) + seq![","@],
        entry_fragments(entries, i) == seq!["("@] + fragments(entries[i].0) + seq![","@]
            + fragments(entries[i].1) + seq![","@, ")"@],
{
}

/// A sequence with an inline buffer is written in one of three forms: `new`
/// without arguments where it is empty; `from_buf` on its contents where
/// they fill the inline buffer exactly; `from_vec` on a growable sequence of
/// its contents otherwise.
pub proof fn lemma_small_sequence_forms(inline_size: usize, elements: Elements)
    ensures
        elements.len() == 0 ==> fragments(Value::SmallSequence { inline_size, elements }) == seq![
            "SmallVec"@,
            "::"@,
            "new"@,
            "("@,
            ")"@,
        ],
        elements.len() > 0 && inline_size == elements.len() ==> fragments(
            Value::SmallSequence { inline_size, elements },
        ) == seq!["SmallVec"@, "::"@, "from_buf"@, "("@] + fragments(Value::Slice(elements))
            + seq![")"@],
        elements.len() > 0 && inline_size != elements.len() ==> fragments(
            Value::SmallSequence { inline_size, elements },
        ) == seq!["SmallVec"@, "::"@, "from_vec"@, "("@] + fragments(Value::Sequence(elements))
            + seq![")"@],
{
    if elements.len() > 0 && inline_size != elements.len() {
        assert(fragments(Value::SmallSequence { inline_size, elements }) =~= seq![
            "SmallVec"@,
            "::"@,
            "from_vec"@,
            "("@,
        ] + fragments(Value::Sequence(elements)) + seq![")"@]);
    }
}

/// A pointer with shared ownership to a value that can be encoded is
/// encoded if and only if it holds the only strong reference; any other
/// count is refused as unsound. Where it is encoded, it is written as the
/// call of its constructor on the value.
pub proof fn lemma_shared_pointer_rule(strong_count: usize, inner: Box<Value>)
    requires
        verdict(*inner) is Ok,
    ensures
        verdict(Value::SharedLocal { strong_count, inner }) is Ok <==> strong_count == 1,
        verdict(Value::SharedSync { strong_count, inner }) is Ok <==> strong_count == 1,
        strong_count != 1 ==> verdict(Value::SharedLocal { strong_count, inner }) == Err::<
            (),
            EncodeError,
        >(EncodeError::UnsoundOperation),
        strong_count != 1 ==> verdict(Value::SharedSync { strong_count, inner }) == Err::<
            (),
            EncodeError,
        >(EncodeError::UnsoundOperation),
        fragments(Value::SharedLocal { strong_count, inner }) == seq![
            "::std::rc::Rc"@,
            "::"@,
            "new"@,
            "("@,
        ] + fragments(*inner) + seq![")"@],
        fragments(Value::SharedSync { strong_count, inner }) == seq![
            "::std::sync::Arc"@,
            "::"@,
            "new"@,
            "("@,
        ] + fragments(*inner) + seq![")"@],
{
}

/// Encoding an ordered mapping is reproducible: two encodings of the same
/// mapping into sinks that hold the same text end alike and leave the same
/// text.
pub proof fn lemma_ordered_mapping_is_reproducible(
    entries: Vec<(Value, Value)>,
    before: Seq<char>,
    first_done: Result<(), EncodeError>,
    first_after: Seq<char>,
    second_done: Result<(), EncodeError>,
    second_after: Seq<char>,
)
    requires
        encodes(Value::OrderedMapping(entries), before, first_done, first_after),
        encodes(Value::OrderedMapping(entries), before, second_done, second_after),
    ensures
        first_done == second_done,
        first_after == second_after,
{
}

} // verus!
