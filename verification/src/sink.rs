//! The output channel: fragments are appended, in order, to a `quote::Tokens`.
//!
//! `Tokens` is an outside type. Its contents are known to the verifier only
//! through [`rendered`], and its operations only through the contracts stated
//! in this module, which are believed and not proved.

use vstd::prelude::*;

verus! {

/// `quote::Tokens`, opaque to the verifier.
#[verifier::external_type_specification]
#[verifier::external_body]
pub struct ExTokens(quote::Tokens);

/// The text that a `Tokens` holds: what `Tokens::as_str` returns.
pub uninterp spec fn rendered(tokens: quote::Tokens) -> Seq<char>;

/// The text after one more fragment: a single space separates two non-empty
/// parts, and an empty part adds nothing.
pub open spec fn joined(text: Seq<char>, fragment: Seq<char>) -> Seq<char> {
    if text.len() > 0 && fragment.len() > 0 {
        text + seq![' '] + fragment
    } else {
        text + fragment
    }
}

/// The text after a sequence of fragments, appended first to last.
pub open spec fn joined_all(text: Seq<char>, fragments: Seq<Seq<char>>) -> Seq<char>
    decreases fragments.len(),
{
    if fragments.len() == 0 {
        text
    } else {
        joined(joined_all(text, fragments.drop_last()), fragments.last())
    }
}

/// The text of a sequence of fragments appended to an empty sink.
pub open spec fn text_of(fragments: Seq<Seq<char>>) -> Seq<char> {
    joined_all(Seq::empty(), fragments)
}

/// `Tokens::new` returns a sink that holds no text.
pub assume_specification[ quote::Tokens::new ]() -> (tokens: quote::Tokens)
    ensures
        rendered(tokens) == Seq::<char>::empty(),
;

/// `Tokens::as_str` returns the text held, unchanged.
pub assume_specification[ quote::Tokens::as_str ](tokens: &quote::Tokens) -> (text: &str)
    ensures
        text@ == rendered(*tokens),
;

/// `Tokens::append`: pushes one space if both the text held and the fragment
/// are non-empty, then pushes the fragment.
#[verifier::external_body]
pub(crate) fn append(tokens: &mut quote::Tokens, fragment: &str)
    ensures
        rendered(*final(tokens)) == joined(rendered(*old(tokens)), fragment@),
{
    tokens.append(fragment)
}

/// Appending nothing changes nothing.
pub broadcast proof fn lemma_joined_all_empty(text: Seq<char>)
    ensures
        #[trigger] joined_all(text, Seq::empty()) == text,
{
}

/// Appending a concatenation is appending its parts in turn.
pub broadcast proof fn lemma_joined_all_concat(
    text: Seq<char>,
    first: Seq<Seq<char>>,
    second: Seq<Seq<char>>,
)
    ensures
        #[trigger] joined_all(text, first + second) == joined_all(
            joined_all(text, first),
            second,
        ),
    decreases second.len(),
{
    if second.len() == 0 {
        assert(first + second =~= first);
    } else {
        lemma_joined_all_concat(text, first, second.drop_last());
        assert((first + second).drop_last() =~= first + second.drop_last());
    }
}

/// `joined` is associative.
pub proof fn lemma_joined_assoc(a: Seq<char>, b: Seq<char>, c: Seq<char>)
    ensures
        joined(joined(a, b), c) == joined(a, joined(b, c)),
{
    assert(joined(joined(a, b), c) =~= joined(a, joined(b, c)));
}

/// Appending the text of a sequence of fragments as one fragment gives the
/// same text as appending the fragments one by one.
pub proof fn lemma_joined_text_of(text: Seq<char>, fragments: Seq<Seq<char>>)
    ensures
        joined(text, text_of(fragments)) == joined_all(text, fragments),
    decreases fragments.len(),
{
    if fragments.len() == 0 {
        assert(text + Seq::<char>::empty() =~= text);
    } else {
        lemma_joined_text_of(text, fragments.drop_last());
        lemma_joined_assoc(text, text_of(fragments.drop_last()), fragments.last());
    }
}

/// Appending a sequence of one.
pub broadcast proof fn lemma_joined_all_1(text: Seq<char>, fragments: Seq<Seq<char>>)
    requires
        fragments.len() == 1,
    ensures
        #[trigger] joined_all(text, fragments) == joined(text, fragments[0]),
{
    reveal_with_fuel(joined_all, 2);
}

/// Appending a sequence of two.
pub broadcast proof fn lemma_joined_all_2(text: Seq<char>, fragments: Seq<Seq<char>>)
    requires
        fragments.len() == 2,
    ensures
        #[trigger] joined_all(text, fragments) == joined(joined(text, fragments[0]), fragments[1]),
{
    reveal_with_fuel(joined_all, 3);
}

/// Appending a sequence of three.
pub broadcast proof fn lemma_joined_all_3(text: Seq<char>, fragments: Seq<Seq<char>>)
    requires
        fragments.len() == 3,
    ensures
        #[trigger] joined_all(text, fragments) == joined(
            joined(joined(text, fragments[0]), fragments[1]),
            fragments[2],
        ),
{
    reveal_with_fuel(joined_all, 4);
}

/// Appending a sequence of four.
pub broadcast proof fn lemma_joined_all_4(text: Seq<char>, fragments: Seq<Seq<char>>)
    requires
        fragments.len() == 4,
    ensures
        #[trigger] joined_all(text, fragments) == joined(
            joined(
                joined(joined(text, fragments[0]), fragments[1]),
                fragments[2],
            ),
            fragments[3],
        ),
{
    reveal_with_fuel(joined_all, 5);
}

/// Appending a sequence of five.
pub broadcast proof fn lemma_joined_all_5(text: Seq<char>, fragments: Seq<Seq<char>>)
    requires
        fragments.len() == 5,
    ensures
        #[trigger] joined_all(text, fragments) == joined(
            joined(
                joined(
                    joined(joined(text, fragments[0]), fragments[1]),
                    fragments[2],
                ),
                fragments[3],
            ),
            fragments[4],
        ),
{
    reveal_with_fuel(joined_all, 6);
}

/// Appending a sequence of six.
pub broadcast proof fn lemma_joined_all_6(text: Seq<char>, fragments: Seq<Seq<char>>)
    requires
        fragments.len() == 6,
    ensures
        #[trigger] joined_all(text, fragments) == joined(
            joined(
                joined(
                    joined(
                        joined(joined(text, fragments[0]), fragments[1]),
                        fragments[2],
                    ),
                    fragments[3],
                ),
                fragments[4],
            ),
            fragments[5],
        ),
{
    reveal_with_fuel(joined_all, 7);
}

/// Appending a sequence of seven.
pub broadcast proof fn lemma_joined_all_7(text: Seq<char>, fragments: Seq<Seq<char>>)
    requires
        fragments.len() == 7,
    ensures
        #[trigger] joined_all(text, fragments) == joined(
            joined(
                joined(
                    joined(
                        joined(
                            joined(joined(text, fragments[0]), fragments[1]),
                            fragments[2],
                        ),
                        fragments[3],
                    ),
                    fragments[4],
                ),
                fragments[5],
            ),
            fragments[6],
        ),
{
    reveal_with_fuel(joined_all, 8);
}

pub broadcast group group_joined {
    lemma_joined_all_empty,
    lemma_joined_all_concat,
    lemma_joined_all_1,
    lemma_joined_all_2,
    lemma_joined_all_3,
    lemma_joined_all_4,
    lemma_joined_all_5,
    lemma_joined_all_6,
    lemma_joined_all_7,
}

} // verus!
