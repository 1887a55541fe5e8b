//! Morse code translation: a fixed symbol table, a codec between text and
//! Morse code, and the sequencing of tones by which Morse code is played or
//! exported as audio.
//!
//! - [`table`]: the symbol table, as a pair of mutually inverse lookups.
//! - [`codec`]: what encoding, decoding and translating give, and what holds
//!   of them.
//! - [`morse`]: the translator itself.
//! - [`audio`]: tones, the order of playback, and the samples of a Morse
//!   string.
//! - [`text`]: trimming and splitting of character sequences.
//! - [`std_specs`]: the contracts assumed of the standard library.

pub mod audio;
pub mod codec;
pub mod morse;
pub mod std_specs;
pub mod table;
pub mod text;
