//! Encoding detection and transcoding for command scripts, and the pieces of
//! turning such a script into a standalone executable that are pure
//! computation.
//!
//! A script for a legacy command shell is an untagged stream of bytes. This
//! library infers the encoding of such a stream, compares it with the encoding
//! of the environment the script will run in, and re-encodes the script where
//! the two differ. Nothing here reads or writes a file: content comes in as
//! bytes and goes out as bytes.
//!
//! Detection ([`encoding_detector`]) runs a statistical pass
//! ([`statistical`]) and, where that pass is not confident, a heuristic
//! ([`heuristic`]); it never fails. The encoding of the environment is an
//! input to it, which [`environment`] derives from what a console reports.
//! Conversion ([`bat_converter`]) decodes and encodes with the codecs of
//! [`codec`], substituting what cannot be represented.

pub mod bat_converter;
pub mod codec;
pub mod confidence;
pub mod encoding_detector;
pub mod environment;
pub mod exe_generator;
pub mod heuristic;
pub mod statistical;
pub mod text;
