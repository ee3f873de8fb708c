//! Morphological tokenization behind a pull-style token stream.
//!
//! A dictionary-backed segmentation engine splits a text into lexical units;
//! this crate turns each unit into a [`Token`] with byte offsets and character
//! positions, and hands the tokens out through a cursor.
//!
//! - [`VibratoTokenizer`] holds the dictionary and segments one text per call.
//! - [`VibratoTokenStream`] walks the tokens of one text.
//! - [`engine`] lists everything that is assumed of the segmentation engine.

pub mod engine;
pub mod error;
pub mod stream;
pub mod token;
pub mod tokenizer;

pub use error::{Refusal, TantivyVibratoError};
pub use stream::{Cursor, VibratoTokenStream};
pub use token::Token;
pub use tokenizer::VibratoTokenizer;
