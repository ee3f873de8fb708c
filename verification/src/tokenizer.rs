//! The tokenizer: one shared dictionary, one fresh worker for each text.

use crate::engine::{
    decode_dictionary, decoded_dictionary, dictionary_content, new_worker, num_tokens,
    reset_sentence, segmentation, tokenize, tokenizer_dictionary, tokenizer_over,
    unit_range_byte, unit_range_char, unit_surface, well_formed_dictionary, worker_sentence,
    worker_units, MAX_SENTENCE_LENGTH,
};
use crate::error::{Refusal, TantivyVibratoError};
use crate::stream::{Cursor, VibratoTokenStream};
use crate::token::{
    byte_len, lemma_contiguous_positions_chain, lemma_meeting_offsets_chain_positions,
    lemma_spans_count, lemma_texts_are_slices, lemma_tokens_offsets_in_order, offsets_in_order,
    offsets_meet, positions_chained, spans_contiguous, spans_in_order, texts_are_slices,
    token_of, tokens_of, views, Token, TokenView,
};
use std::sync::Arc;
use vibrato::errors::VibratoError;
use vibrato::tokenizer::worker::Worker;
use vibrato::{Dictionary, Tokenizer};
use vstd::prelude::*;

verus! {

/// The tokens that a tokenizer over the dictionary of the given content
/// yields for `text`: those of the engine's segmentation, or none where the
/// text is too long for the engine.
pub open spec fn stream_tokens(dictionary: Seq<u8>, text: Seq<char>) -> Seq<TokenView> {
    if text.len() < MAX_SENTENCE_LENGTH {
        tokens_of(text, segmentation(dictionary, text))
    } else {
        Seq::empty()
    }
}

/// A tokenizer over one dictionary. It is never changed after construction;
/// clones share the dictionary. Every way of building one asks for a
/// dictionary that the engine can work with, so segmenting a text asks for
/// nothing more.
pub struct VibratoTokenizer {
    tokenizer: Arc<Tokenizer>,
}

impl Clone for VibratoTokenizer {
    /// A second handle on the same dictionary.
    fn clone(&self) -> (copy: Self)
        ensures
            copy.dictionary() == self.dictionary(),
    {
        proof {
            use_type_invariant(self);
        }
        VibratoTokenizer { tokenizer: self.tokenizer.clone() }
    }
}

impl VibratoTokenizer {
    /// The content of the dictionary this tokenizer segments with.
    pub closed spec fn dictionary(&self) -> Seq<u8> {
        tokenizer_dictionary(*self.tokenizer)
    }

    /// The engine can work with the dictionary of every tokenizer.
    #[verifier::type_invariant]
    spec fn inv(self) -> bool {
        well_formed_dictionary(tokenizer_dictionary(*self.tokenizer))
    }

    /// Builds a tokenizer from what the engine made of a dictionary image:
    /// over the dictionary it decoded, or else its error, passed on as it is.
    pub fn from_decoded(decoded: Result<Dictionary, VibratoError>) -> (outcome: Result<
        VibratoTokenizer,
        TantivyVibratoError,
    >)
        requires
            decoded matches Ok(dictionary) ==> well_formed_dictionary(
                dictionary_content(dictionary),
            ),
        ensures
            match decoded {
                Ok(dictionary) => outcome matches Ok(tokenizer) && tokenizer.dictionary()
                    == dictionary_content(dictionary),
                Err(error) => outcome == Err::<VibratoTokenizer, _>(
                    TantivyVibratoError::VibratoError(error),
                ),
            },
    {
        match decoded {
            Ok(dictionary) => Ok(
                VibratoTokenizer { tokenizer: Arc::new(tokenizer_over(dictionary)) },
            ),
            Err(error) => Err(TantivyVibratoError::VibratoError(error)),
        }
    }

    /// Builds a tokenizer from the bytes of a compiled dictionary.
    ///
    /// The layout of the image is the engine's own, and the engine does not
    /// check an image before it works with it. The caller answers for the
    /// image being one that the engine's compiler wrote, or another that is
    /// [`well_formed_dictionary`].
    pub fn new(dict_image: &[u8]) -> (outcome: Result<VibratoTokenizer, TantivyVibratoError>)
        requires
            well_formed_dictionary(dict_image@),
        ensures
            match outcome {
                Ok(tokenizer) => decoded_dictionary(dict_image@) == Some(tokenizer.dictionary()),
                Err(error) => error is VibratoError && decoded_dictionary(dict_image@) is None,
            },
    {
        VibratoTokenizer::from_decoded(decode_dictionary(dict_image))
    }

    /// Segments `text` and returns the stream over its tokens, together with
    /// the reason where the text was not segmented. Such a text gives an
    /// empty stream: the failure is for the caller to record, not to act on.
    pub fn token_stream_with_diagnostic(&self, text: &str) -> (outcome: (
        VibratoTokenStream,
        Option<Refusal>,
    ))
        ensures
            outcome.0@.cursor == Cursor::NotStarted,
            outcome.0@.tokens == stream_tokens(self.dictionary(), text@),
            match outcome.1 {
                None => text@.len() < MAX_SENTENCE_LENGTH,
                Some(Refusal::LatticeFull) => text@.len() == MAX_SENTENCE_LENGTH,
                Some(Refusal::Engine(_)) => text@.len() > MAX_SENTENCE_LENGTH,
            },
            text@.len() < MAX_SENTENCE_LENGTH ==> spans_in_order(
                segmentation(self.dictionary(), text@),
                text@.len() as int,
            ),
            offsets_in_order(outcome.0@.tokens, byte_len(text@)),
            texts_are_slices(outcome.0@.tokens, text@),
            spans_contiguous(segmentation(self.dictionary(), text@)) ==> positions_chained(
                outcome.0@.tokens,
            ),
            offsets_meet(outcome.0@.tokens) ==> positions_chained(outcome.0@.tokens),
            outcome.0@.tokens.len() <= text@.len(),
    {
        proof {
            use_type_invariant(self);
        }
        let mut worker = new_worker(&*self.tokenizer);
        match reset_sentence(&mut worker, text) {
            Err(error) => (VibratoTokenStream::new(Vec::new()), Some(Refusal::Engine(error))),
            Ok(()) => {
                if text.unicode_len() < MAX_SENTENCE_LENGTH {
                    tokenize(&mut worker);
                    let tokens = collect_tokens(&worker);
                    proof {
                        let spans = segmentation(self.dictionary(), text@);
                        assert(worker_units(worker) =~= spans);
                        lemma_tokens_offsets_in_order(text@, spans);
                        lemma_texts_are_slices(text@, spans);
                        lemma_spans_count(spans, text@.len() as int);
                        if spans_contiguous(spans) {
                            lemma_contiguous_positions_chain(text@, spans);
                        }
                        if offsets_meet(tokens_of(text@, spans)) {
                            lemma_meeting_offsets_chain_positions(text@, spans);
                        }
                    }
                    (VibratoTokenStream::new(tokens), None)
                } else {
                    (VibratoTokenStream::new(Vec::new()), Some(Refusal::LatticeFull))
                }
            },
        }
    }

    /// Segments `text` and returns the stream over its tokens. A text too
    /// long for the engine gives an empty stream.
    pub fn token_stream(&self, text: &str) -> (stream: VibratoTokenStream)
        ensures
            stream@.cursor == Cursor::NotStarted,
            stream@.tokens == stream_tokens(self.dictionary(), text@),
            text@.len() < MAX_SENTENCE_LENGTH ==> spans_in_order(
                segmentation(self.dictionary(), text@),
                text@.len() as int,
            ),
            offsets_in_order(stream@.tokens, byte_len(text@)),
            texts_are_slices(stream@.tokens, text@),
            spans_contiguous(segmentation(self.dictionary(), text@)) ==> positions_chained(
                stream@.tokens,
            ),
            offsets_meet(stream@.tokens) ==> positions_chained(stream@.tokens),
            stream@.tokens.len() <= text@.len(),
    {
        self.token_stream_with_diagnostic(text).0
    }
}

/// Copies the tokens out of a worker that has finished its run.
fn collect_tokens(worker: &Worker) -> (tokens: Vec<Token>)
    requires
        spans_in_order(worker_units(*worker), worker_sentence(*worker).len() as int),
    ensures
        views(tokens@) == tokens_of(
            worker_sentence(*worker),
            worker_units(*worker),
        ),
{
    let count = num_tokens(worker);
    let mut tokens: Vec<Token> = Vec::new();
    let mut index: usize = 0;
    while index < count
        invariant
            index <= count == worker_units(*worker).len(),
            spans_in_order(worker_units(*worker), worker_sentence(*worker).len() as int),
            tokens@.len() == index,
            forall|i: int|
                0 <= i < index ==> (#[trigger] tokens@[i])@ == token_of(
                    worker_sentence(*worker),
                    worker_units(*worker)[i],
                ),
        decreases count - index,
    {
        let chars = unit_range_char(worker, index);
        let bytes = unit_range_byte(worker, index);
        let surface = unit_surface(worker, index);
        tokens.push(Token::from_ranges(chars, bytes, surface));
        index += 1;
    }
    tokens
}

/// Tokenizers built from the same dictionary image yield the same tokens for
/// the same text.
pub proof fn lemma_same_image_same_tokens(
    image: Seq<u8>,
    first: VibratoTokenizer,
    second: VibratoTokenizer,
    text: Seq<char>,
)
    requires
        decoded_dictionary(image) == Some(first.dictionary()),
        decoded_dictionary(image) == Some(second.dictionary()),
    ensures
        stream_tokens(first.dictionary(), text) == stream_tokens(second.dictionary(), text),
{
}

} // verus!
