//! Groups the morphemes of a dictionary-based analyzer into words.
//!
//! The first stage turns each raw morpheme (surface form plus a comma separated
//! feature string) into a typed token; the second stage walks the tokens once,
//! with one token of lookahead, and folds them into words following a grammar of
//! attachment rules.
pub mod tags;
pub mod parser;
pub mod rules;
pub mod words;
pub mod proofs;

pub use parser::{prepare_tokens, ParseError, ParseFailure, PreparedToken, RawToken};
pub use rules::{Grammar, PartOfSpeech};
pub use tags::PosTag;
pub use words::{parse_into_words, AggregationError, AggregationFailure, Word, WordExtra};
