//! The segmentation engine, as far as this crate relies on it.
//!
//! Dictionary decoding, lattice construction and cost minimisation all happen
//! inside `vibrato`. Nothing in this file is proved: every contract below is an
//! assumption about that crate, taken from its source. The rest of the crate
//! is verified against these contracts and reaches the engine only through
//! them.
//!
//! The engine decodes a dictionary image without checking its tables against
//! each other, reads them with bounds checks afterwards and adds up costs in
//! 32 bits. On an image whose tables are truncated or disagree with each
//! other, or whose costs overflow along a sentence, it stops the program
//! instead of returning. [`well_formed_dictionary`] names the images on which
//! it does not; the calls that read the tables require it.

use crate::token::{byte_offset, spans_in_order};
use vibrato::errors::VibratoError;
use vibrato::tokenizer::worker::Worker;
use vibrato::{Dictionary, Tokenizer};
use vstd::prelude::*;

verus! {

/// The largest number of characters the engine accepts when a sentence is
/// handed to it. Its lattice holds sentences below this length.
pub const MAX_SENTENCE_LENGTH: usize = 0xFFFF;

/// `vibrato::Dictionary`: the decoded lexicon, connection costs and character
/// classes. Opaque here.
#[verifier::external_type_specification]
#[verifier::external_body]
pub struct ExDictionary(vibrato::Dictionary);

/// `vibrato::Tokenizer`: a dictionary ready for segmentation. Opaque here.
#[verifier::external_type_specification]
#[verifier::external_body]
pub struct ExTokenizer(vibrato::Tokenizer);

/// `vibrato::tokenizer::worker::Worker`: the mutable state of one segmentation
/// run, borrowed from its tokenizer. Opaque here.
#[verifier::external_type_specification]
#[verifier::external_body]
pub struct ExWorker<'a>(vibrato::tokenizer::worker::Worker<'a>);

/// `vibrato::errors::VibratoError`: the engine's error value. Opaque here.
#[verifier::external_type_specification]
#[verifier::external_body]
pub struct ExVibratoError(vibrato::errors::VibratoError);

/// Whether the engine can work with a dictionary image. It can where
/// `Dictionary::read` returns on the image, with a dictionary or with an
/// error, and where the dictionary it returns lets `Worker::reset_sentence`
/// and `Worker::tokenize` return on every sentence below
/// [`MAX_SENTENCE_LENGTH`]: its trie and tables are complete, every index that
/// one table holds into another is in range, every character class has an
/// unknown-word entry, and no path cost leaves 32 bits. The engine offers no
/// call that tests this. Images that its own compiler wrote from sources with
/// ordinary costs are of this sort.
pub uninterp spec fn well_formed_dictionary(image: Seq<u8>) -> bool;

/// What `Dictionary::read` makes of a byte image: the content of the
/// dictionary it decodes, or `None` where it reports an error. Decoding reads
/// nothing but the image, so equal images give equal outcomes.
pub uninterp spec fn decoded_dictionary(image: Seq<u8>) -> Option<Seq<u8>>;

/// The content of a dictionary: its tables, as the image that
/// `Dictionary::write` gives for them.
pub uninterp spec fn dictionary_content(dictionary: Dictionary) -> Seq<u8>;

/// The content of the dictionary that a tokenizer was built over. A tokenizer
/// also holds two options, on skipping spaces and on the longest run of
/// characters grouped into one unknown word. `Tokenizer::new` leaves both at
/// their defaults and this crate builds tokenizers in no other way, so the
/// dictionary stands for the whole tokenizer.
pub uninterp spec fn tokenizer_dictionary(tokenizer: Tokenizer) -> Seq<u8>;

/// The content of the dictionary that a worker segments with, under the
/// default options of its tokenizer.
pub uninterp spec fn worker_dictionary(worker: Worker) -> Seq<u8>;

/// The sentence a worker holds, as characters.
pub uninterp spec fn worker_sentence(worker: Worker) -> Seq<char>;

/// The units a worker holds as its result, first unit first, each as the
/// half-open range of character positions it covers in the sentence.
pub uninterp spec fn worker_units(worker: Worker) -> Seq<(int, int)>;

/// The units that `Worker::tokenize` finds in `sentence` with the dictionary
/// of the given content and the default options of the tokenizer (spaces are
/// kept, runs of unknown characters are grouped without limit): the least-cost
/// path through the lattice of dictionary and unknown words. Under those
/// options it reads the dictionary and the sentence and nothing else.
pub uninterp spec fn segmentation(dictionary: Seq<u8>, sentence: Seq<char>) -> Seq<(int, int)>;

/// Calls `Dictionary::read` on a byte slice.
///
/// Claims that success and the decoded content depend on the image alone, and
/// that the dictionary decoded from a well-formed image is well formed. The
/// call reads from memory, so no I/O error can occur; every error it reports
/// is a decoding error.
///
/// The decoder hands the bytes of the trie to a reader that slices them
/// without looking at their length, and reserves memory for as many entries
/// as a table claims to have. The images on which that stops the program are
/// left out.
#[verifier::external_body]
pub(crate) fn decode_dictionary(image: &[u8]) -> (outcome: Result<Dictionary, VibratoError>)
    requires
        well_formed_dictionary(image@),
    ensures
        match outcome {
            Ok(dictionary) => {
                &&& decoded_dictionary(image@) == Some(dictionary_content(dictionary))
                &&& well_formed_dictionary(dictionary_content(dictionary))
            },
            Err(_) => decoded_dictionary(image@) is None,
        },
{
    Dictionary::read(image)
}

/// Calls `Tokenizer::new`.
///
/// Claims that the tokenizer holds the dictionary it was given. The
/// constructor stores the dictionary and switches no option on.
#[verifier::external_body]
pub(crate) fn tokenizer_over(dictionary: Dictionary) -> (tokenizer: Tokenizer)
    ensures
        tokenizer_dictionary(tokenizer) == dictionary_content(dictionary),
{
    Tokenizer::new(dictionary)
}

/// Calls `Tokenizer::new_worker`.
///
/// Claims that a new worker segments with its tokenizer's dictionary and
/// holds neither a sentence nor a result.
#[verifier::external_body]
pub(crate) fn new_worker<'a>(tokenizer: &'a Tokenizer) -> (worker: Worker<'a>)
    ensures
        worker_dictionary(worker) == tokenizer_dictionary(*tokenizer),
        worker_sentence(worker) == Seq::<char>::empty(),
        worker_units(worker) == Seq::<(int, int)>::empty(),
{
    tokenizer.new_worker()
}

/// Calls `Worker::reset_sentence`.
///
/// Claims what the method documents: it fails exactly when the sentence has
/// more than [`MAX_SENTENCE_LENGTH`] characters. Either way the earlier result
/// is dropped; on success the worker holds the new sentence, on failure it
/// holds none.
///
/// The call looks every character up in the table of character classes and
/// falls back on the table's first entry, so a dictionary without one is
/// left out.
#[verifier::external_body]
pub(crate) fn reset_sentence(worker: &mut Worker, text: &str) -> (outcome: Result<
    (),
    VibratoError,
>)
    requires
        well_formed_dictionary(worker_dictionary(*old(worker))),
    ensures
        outcome is Ok <==> text@.len() <= MAX_SENTENCE_LENGTH,
        worker_dictionary(*final(worker)) == worker_dictionary(*old(worker)),
        worker_units(*final(worker)) == Seq::<(int, int)>::empty(),
        worker_sentence(*final(worker)) == (if outcome is Ok {
            text@
        } else {
            Seq::<char>::empty()
        }),
{
    worker.reset_sentence(text)
}

/// Calls `Worker::tokenize`.
///
/// Claims that the units found are a function of dictionary and sentence,
/// that they are put in front of whatever result the worker held, and that
/// they are non-empty ranges of the sentence in ascending order: the lattice
/// only holds words with `start < end` that end inside the sentence, and the
/// path is followed from each word to one that ends no later than it starts.
///
/// The lattice gets one slot more than the sentence has characters, counted
/// in 16 bits. A sentence of [`MAX_SENTENCE_LENGTH`] characters overflows that
/// count and stops the program, so the call is not made on one. The call
/// indexes the unknown-word tables, the connection matrix and the lattice
/// itself and sums costs in 32 bits, so a dictionary on which one of these
/// fails is left out as well.
#[verifier::external_body]
pub(crate) fn tokenize(worker: &mut Worker)
    requires
        well_formed_dictionary(worker_dictionary(*old(worker))),
        worker_sentence(*old(worker)).len() < MAX_SENTENCE_LENGTH,
    ensures
        worker_dictionary(*final(worker)) == worker_dictionary(*old(worker)),
        worker_sentence(*final(worker)) == worker_sentence(*old(worker)),
        worker_units(*final(worker)) == segmentation(
            worker_dictionary(*old(worker)),
            worker_sentence(*old(worker)),
        ) + worker_units(*old(worker)),
        spans_in_order(
            segmentation(worker_dictionary(*old(worker)), worker_sentence(*old(worker))),
            worker_sentence(*old(worker)).len() as int,
        ),
{
    worker.tokenize()
}

/// Calls `Worker::num_tokens`.
#[verifier::external_body]
pub(crate) fn num_tokens(worker: &Worker) -> (count: usize)
    ensures
        count == worker_units(*worker).len(),
{
    worker.num_tokens()
}

/// Calls `Token::range_char` on the unit at `index`.
#[verifier::external_body]
pub(crate) fn unit_range_char(worker: &Worker, index: usize) -> (range: (usize, usize))
    requires
        index < worker_units(*worker).len(),
    ensures
        (range.0 as int, range.1 as int) == worker_units(*worker)[index as int],
{
    let range = worker.token(index).range_char();
    (range.start, range.end)
}

/// Calls `Token::range_byte` on the unit at `index`.
///
/// Claims that the engine maps a character position to the byte offset of
/// that character in the sentence: it takes the offsets from
/// `str::char_indices`, and the length in bytes for the position at the end.
#[verifier::external_body]
pub(crate) fn unit_range_byte(worker: &Worker, index: usize) -> (range: (usize, usize))
    requires
        index < worker_units(*worker).len(),
    ensures
        range.0 == byte_offset(worker_sentence(*worker), worker_units(*worker)[index as int].0),
        range.1 == byte_offset(worker_sentence(*worker), worker_units(*worker)[index as int].1),
{
    let range = worker.token(index).range_byte();
    (range.start, range.end)
}

/// Calls `Token::surface` on the unit at `index` and copies the string.
///
/// Claims that the surface is the slice of the sentence at the unit's byte
/// range, that is, the characters of the sentence in the unit's range.
#[verifier::external_body]
pub(crate) fn unit_surface(worker: &Worker, index: usize) -> (surface: String)
    requires
        index < worker_units(*worker).len(),
    ensures
        surface@ == worker_sentence(*worker).subrange(
            worker_units(*worker)[index as int].0,
            worker_units(*worker)[index as int].1,
        ),
{
    worker.token(index).surface().to_string()
}

} // verus!
