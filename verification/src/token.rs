//! Tokens and the arithmetic that places them in a text.
//!
//! A text is modelled as its sequence of characters. A lexical unit is a
//! half-open range of character positions, written as a pair `(start, end)`.
//! Everything a token carries follows from the text and that range.

use vstd::prelude::*;
use vstd::utf8::*;

verus! {

/// A lexical unit with its byte and character coordinates in the analysed text.
#[derive(Debug, PartialEq, Eq)]
pub struct Token {
    /// Byte offset of the first byte of the unit.
    pub offset_from: usize,
    /// Byte offset one past the last byte of the unit.
    pub offset_to: usize,
    /// Index of the unit's first character.
    pub position: usize,
    /// The characters of the unit.
    pub text: String,
    /// Number of characters the unit spans.
    pub position_length: usize,
}

/// The mathematical content of a [`Token`].
pub struct TokenView {
    pub offset_from: int,
    pub offset_to: int,
    pub position: int,
    pub text: Seq<char>,
    pub position_length: int,
}

impl View for Token {
    type V = TokenView;

    open spec fn view(&self) -> TokenView {
        TokenView {
            offset_from: self.offset_from as int,
            offset_to: self.offset_to as int,
            position: self.position as int,
            text: self.text@,
            position_length: self.position_length as int,
        }
    }
}

/// The contents of a run of tokens, in order.
pub open spec fn views(tokens: Seq<Token>) -> Seq<TokenView> {
    Seq::new(tokens.len(), |i: int| tokens[i]@)
}

/// Number of bytes that the first `pos` characters of `text` take in UTF-8.
pub open spec fn byte_offset(text: Seq<char>, pos: int) -> int {
    encode_utf8(text.take(pos)).len() as int
}

/// Number of bytes that `text` takes in UTF-8: what `str::len` counts.
pub open spec fn byte_len(text: Seq<char>) -> int {
    encode_utf8(text).len() as int
}

/// The token that covers the characters `span.0 .. span.1` of `text`.
pub open spec fn token_of(text: Seq<char>, span: (int, int)) -> TokenView {
    TokenView {
        offset_from: byte_offset(text, span.0),
        offset_to: byte_offset(text, span.1),
        position: span.0,
        text: text.subrange(span.0, span.1),
        position_length: span.1 - span.0,
    }
}

/// The tokens that cover `spans`, one for each span and in the same order.
pub open spec fn tokens_of(text: Seq<char>, spans: Seq<(int, int)>) -> Seq<TokenView> {
    Seq::new(spans.len(), |i: int| token_of(text, spans[i]))
}

/// Every span is a non-empty range inside `0 .. len`, and no span starts
/// before the one in front of it has ended.
pub open spec fn spans_in_order(spans: Seq<(int, int)>, len: int) -> bool {
    &&& forall|i: int| 0 <= i < spans.len() ==> 0 <= (#[trigger] spans[i]).0 < spans[i].1 <= len
    &&& forall|i: int, j: int|
        0 <= i < j < spans.len() ==> (#[trigger] spans[i]).1 <= (#[trigger] spans[j]).0
}

/// Each span starts where the one in front of it ends: no character is skipped.
pub open spec fn spans_contiguous(spans: Seq<(int, int)>) -> bool {
    forall|i: int, j: int|
        0 <= i && j == i + 1 && j < spans.len() ==> (#[trigger] spans[i]).1 == (
        #[trigger] spans[j]).0
}

/// Byte ranges lie inside a text of `byte_len` bytes and never move backwards
/// from one token to the next.
pub open spec fn offsets_in_order(tokens: Seq<TokenView>, byte_len: int) -> bool {
    &&& forall|i: int|
        0 <= i < tokens.len() ==> 0 <= (#[trigger] tokens[i]).offset_from <= tokens[i].offset_to
            <= byte_len
    &&& forall|i: int, j: int|
        0 <= i <= j < tokens.len() ==> (#[trigger] tokens[i]).offset_from <= (
        #[trigger] tokens[j]).offset_from && tokens[i].offset_to <= tokens[j].offset_to
}

/// Each token starts at the character where the one in front of it stops.
pub open spec fn positions_chained(tokens: Seq<TokenView>) -> bool {
    forall|i: int, j: int|
        0 <= i && j == i + 1 && j < tokens.len() ==> (#[trigger] tokens[j]).position == (
        #[trigger] tokens[i]).position + tokens[i].position_length
}

/// Each token starts at the byte where the one in front of it ends.
pub open spec fn offsets_meet(tokens: Seq<TokenView>) -> bool {
    forall|i: int, j: int|
        0 <= i && j == i + 1 && j < tokens.len() ==> (#[trigger] tokens[i]).offset_to == (
        #[trigger] tokens[j]).offset_from
}

/// The offsets of each token fall between two characters of `text`, and the
/// bytes of `text` between them are the token's own text, unchanged.
pub open spec fn texts_are_slices(tokens: Seq<TokenView>, text: Seq<char>) -> bool {
    forall|i: int|
        0 <= i < tokens.len() ==> {
            &&& is_char_boundary(encode_utf8(text), (#[trigger] tokens[i]).offset_from)
            &&& is_char_boundary(encode_utf8(text), tokens[i].offset_to)
            &&& encode_utf8(text).subrange(tokens[i].offset_from, tokens[i].offset_to)
                == encode_utf8(tokens[i].text)
        }
}

/// UTF-8 encodes a concatenation piece by piece.
pub proof fn lemma_encode_utf8_concat(a: Seq<char>, b: Seq<char>)
    ensures
        encode_utf8(a + b) == encode_utf8(a) + encode_utf8(b),
    decreases a.len(),
{
    if a.len() == 0 {
        assert(a + b =~= b);
        assert(encode_utf8(a) + encode_utf8(b) =~= encode_utf8(b));
    } else {
        lemma_encode_utf8_concat(a.drop_first(), b);
        assert((a + b).drop_first() =~= a.drop_first() + b);
        assert((a + b)[0] == a[0]);
        assert(encode_utf8(a + b) =~= encode_utf8(a) + encode_utf8(b));
    }
}

/// A longer prefix of a text never takes fewer bytes than a shorter one, and
/// the whole text takes `encode_utf8(text).len()` bytes.
pub proof fn lemma_byte_offset_monotone(text: Seq<char>, a: int, b: int)
    requires
        0 <= a <= b <= text.len(),
    ensures
        0 <= byte_offset(text, a) <= byte_offset(text, b) <= byte_len(text),
        byte_offset(text, text.len() as int) == byte_len(text),
{
    let whole = text.len() as int;
    assert(text.take(b) =~= text.take(a) + text.subrange(a, b));
    lemma_encode_utf8_concat(text.take(a), text.subrange(a, b));
    assert(text =~= text.take(b) + text.subrange(b, whole));
    lemma_encode_utf8_concat(text.take(b), text.subrange(b, whole));
    assert(text.take(whole) =~= text);
}

/// Every character takes at least one byte.
pub proof fn lemma_encode_utf8_len(chars: Seq<char>)
    ensures
        encode_utf8(chars).len() >= chars.len(),
    decreases chars.len(),
{
    if chars.len() > 0 {
        lemma_encode_utf8_len(chars.drop_first());
        assert(encode_scalar(chars[0] as u32).len() >= 1);
    }
}

/// Between two positions of a text lie at least as many bytes as characters.
pub proof fn lemma_byte_offset_strict(text: Seq<char>, a: int, b: int)
    requires
        0 <= a <= b <= text.len(),
    ensures
        byte_offset(text, b) - byte_offset(text, a) >= b - a,
{
    assert(text.take(b) =~= text.take(a) + text.subrange(a, b));
    lemma_encode_utf8_concat(text.take(a), text.subrange(a, b));
    lemma_encode_utf8_len(text.subrange(a, b));
}

/// The byte offset of a position of a text falls between two characters.
pub proof fn lemma_byte_offset_is_boundary(text: Seq<char>, pos: int)
    requires
        0 <= pos <= text.len(),
    ensures
        is_char_boundary(encode_utf8(text), byte_offset(text, pos)),
    decreases pos,
{
    let bytes = encode_utf8(text);
    encode_utf8_valid_utf8(text);
    if pos == 0 {
        assert(text.take(0) =~= Seq::<char>::empty());
    } else {
        let rest = text.drop_first();
        encode_utf8_first_scalar(text);
        assert(pop_first_scalar(bytes) =~= encode_utf8(rest));
        let front = text.take(pos);
        assert(front.drop_first() =~= rest.take(pos - 1));
        assert(front[0] == text[0]);
        assert(encode_utf8(front) == encode_scalar(text[0] as u32) + encode_utf8(
            front.drop_first(),
        ));
        lemma_byte_offset_is_boundary(rest, pos - 1);
        assert(byte_offset(text, pos) == length_of_first_scalar(bytes) + byte_offset(
            rest,
            pos - 1,
        ));
    }
}

/// The bytes of the text between a token's offsets are the UTF-8 encoding of
/// the token's own text.
pub proof fn lemma_token_text_is_slice(text: Seq<char>, span: (int, int))
    requires
        0 <= span.0 <= span.1 <= text.len(),
    ensures
        encode_utf8(text).subrange(
            token_of(text, span).offset_from,
            token_of(text, span).offset_to,
        ) == encode_utf8(token_of(text, span).text),
{
    let front = text.take(span.0);
    let middle = text.subrange(span.0, span.1);
    let back = text.subrange(span.1, text.len() as int);
    assert(text.take(span.1) =~= front + middle);
    assert(text =~= text.take(span.1) + back);
    lemma_encode_utf8_concat(front, middle);
    lemma_encode_utf8_concat(text.take(span.1), back);
    assert(encode_utf8(text).subrange(
        encode_utf8(front).len() as int,
        encode_utf8(text.take(span.1)).len() as int,
    ) =~= encode_utf8(middle));
}

/// Tokens laid over ordered spans have ordered byte ranges inside the text.
pub proof fn lemma_tokens_offsets_in_order(text: Seq<char>, spans: Seq<(int, int)>)
    requires
        spans_in_order(spans, text.len() as int),
    ensures
        offsets_in_order(tokens_of(text, spans), byte_len(text)),
{
    let tokens = tokens_of(text, spans);
    assert forall|i: int| 0 <= i < tokens.len() implies 0 <= (#[trigger] tokens[i]).offset_from
        <= tokens[i].offset_to <= byte_len(text) by {
        lemma_byte_offset_monotone(text, spans[i].0, spans[i].1);
    }
    assert forall|i: int, j: int| 0 <= i <= j < tokens.len() implies (
    #[trigger] tokens[i]).offset_from <= (#[trigger] tokens[j]).offset_from && tokens[i].offset_to
        <= tokens[j].offset_to by {
        if i < j {
            assert(spans[i].1 <= spans[j].0);
            lemma_byte_offset_monotone(text, spans[i].0, spans[j].0);
            lemma_byte_offset_monotone(text, spans[i].1, spans[j].1);
        }
    }
}

/// Tokens laid over spans inside the text are slices of it.
pub proof fn lemma_texts_are_slices(text: Seq<char>, spans: Seq<(int, int)>)
    requires
        spans_in_order(spans, text.len() as int),
    ensures
        texts_are_slices(tokens_of(text, spans), text),
{
    let tokens = tokens_of(text, spans);
    assert forall|i: int| 0 <= i < tokens.len() implies {
        &&& is_char_boundary(encode_utf8(text), (#[trigger] tokens[i]).offset_from)
        &&& is_char_boundary(encode_utf8(text), tokens[i].offset_to)
        &&& encode_utf8(text).subrange(tokens[i].offset_from, tokens[i].offset_to) == encode_utf8(
            tokens[i].text,
        )
    } by {
        lemma_byte_offset_is_boundary(text, spans[i].0);
        lemma_byte_offset_is_boundary(text, spans[i].1);
        lemma_token_text_is_slice(text, spans[i]);
    }
}

/// Where the byte ranges of neighbouring tokens meet, no character lies
/// between them, so each token's position is the position of the token in
/// front of it plus that token's length in characters.
pub proof fn lemma_meeting_offsets_chain_positions(text: Seq<char>, spans: Seq<(int, int)>)
    requires
        spans_in_order(spans, text.len() as int),
        offsets_meet(tokens_of(text, spans)),
    ensures
        spans_contiguous(spans),
        positions_chained(tokens_of(text, spans)),
{
    let tokens = tokens_of(text, spans);
    assert forall|i: int, j: int| 0 <= i && j == i + 1 && j < spans.len() implies (
    #[trigger] spans[i]).1 == (#[trigger] spans[j]).0 by {
        assert(tokens[i].offset_to == tokens[j].offset_from);
        lemma_byte_offset_strict(text, spans[i].1, spans[j].0);
    }
    lemma_contiguous_positions_chain(text, spans);
}

/// Ordered spans are non-empty and apart, so there are no more of them than
/// there are positions to cover.
pub proof fn lemma_spans_count(spans: Seq<(int, int)>, len: int)
    requires
        0 <= len,
        spans_in_order(spans, len),
    ensures
        spans.len() <= len,
    decreases spans.len(),
{
    if spans.len() > 0 {
        let last = spans.last();
        let front = spans.drop_last();
        assert forall|i: int| 0 <= i < front.len() implies 0 <= (#[trigger] front[i]).0
            < front[i].1 <= last.0 by {
            assert(front[i] == spans[i]);
            assert(spans[i].1 <= spans[spans.len() - 1].0);
        }
        assert forall|i: int, j: int| 0 <= i < j < front.len() implies (#[trigger] front[i]).1 <= (
        #[trigger] front[j]).0 by {
            assert(front[i] == spans[i] && front[j] == spans[j]);
        }
        lemma_spans_count(front, last.0);
    }
}

/// Over contiguous spans, each token's position is the position of the token
/// in front of it plus that token's length in characters.
pub proof fn lemma_contiguous_positions_chain(text: Seq<char>, spans: Seq<(int, int)>)
    requires
        spans_contiguous(spans),
    ensures
        positions_chained(tokens_of(text, spans)),
{
    let tokens = tokens_of(text, spans);
    assert forall|i: int, j: int| 0 <= i && j == i + 1 && j < tokens.len() implies (
    #[trigger] tokens[j]).position == (#[trigger] tokens[i]).position
        + tokens[i].position_length by {
        assert(spans[i].1 == spans[j].0);
    }
}

impl Token {
    /// Builds the token for a unit from what a segmentation engine reports of
    /// it: its range in characters, its range in bytes and its surface.
    pub fn from_ranges(chars: (usize, usize), bytes: (usize, usize), surface: String) -> (token:
        Token)
        requires
            chars.0 <= chars.1,
        ensures
            token@ == (TokenView {
                offset_from: bytes.0 as int,
                offset_to: bytes.1 as int,
                position: chars.0 as int,
                text: surface@,
                position_length: chars.1 - chars.0,
            }),
    {
        Token {
            offset_from: bytes.0,
            offset_to: bytes.1,
            position: chars.0,
            text: surface,
            position_length: chars.1 - chars.0,
        }
    }
}

impl Clone for Token {
    fn clone(&self) -> (copy: Self)
        ensures
            copy == *self,
    {
        Token {
            offset_from: self.offset_from,
            offset_to: self.offset_to,
            position: self.position,
            text: self.text.clone(),
            position_length: self.position_length,
        }
    }
}

} // verus!
