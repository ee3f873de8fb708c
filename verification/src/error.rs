//! Why a tokenizer could not be built, and why a text was not segmented.

use vstd::prelude::*;

verus! {

/// `std::io::Error`. Opaque here: the crate only carries it from the reader of
/// a dictionary file to the caller.
#[verifier::external_type_specification]
#[verifier::external_body]
pub struct ExIoError(std::io::Error);

/// The two ways in which building a tokenizer fails.
#[derive(Debug)]
pub enum TantivyVibratoError {
    /// The dictionary file could not be opened or read.
    IOError(std::io::Error),
    /// The bytes read are not a dictionary the engine can decode.
    VibratoError(vibrato::errors::VibratoError),
}

impl From<std::io::Error> for TantivyVibratoError {
    /// A failed read of the dictionary file, passed on as it is.
    fn from(error: std::io::Error) -> (converted: Self) {
        TantivyVibratoError::IOError(error)
    }
}

impl vstd::std_specs::convert::FromSpecImpl<std::io::Error> for TantivyVibratoError {
    open spec fn obeys_from_spec() -> bool {
        true
    }

    open spec fn from_spec(error: std::io::Error) -> Self {
        TantivyVibratoError::IOError(error)
    }
}

impl From<vibrato::errors::VibratoError> for TantivyVibratoError {
    /// An error of the engine, passed on as it is.
    fn from(error: vibrato::errors::VibratoError) -> (converted: Self) {
        TantivyVibratoError::VibratoError(error)
    }
}

impl vstd::std_specs::convert::FromSpecImpl<vibrato::errors::VibratoError> for TantivyVibratoError {
    open spec fn obeys_from_spec() -> bool {
        true
    }

    open spec fn from_spec(error: vibrato::errors::VibratoError) -> Self {
        TantivyVibratoError::VibratoError(error)
    }
}

/// Why a text was not segmented.
#[derive(Debug)]
pub enum Refusal {
    /// The engine refused the sentence when it was handed over.
    Engine(vibrato::errors::VibratoError),
    /// The sentence is as long as the engine accepts, which is one character
    /// more than its lattice can index.
    LatticeFull,
}

} // verus!
