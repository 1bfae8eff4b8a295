//! A small desktop-automation library: capture a fixed screen region,
//! binarize the image, recognize its text, sanitize the result, and map
//! each character to the keystrokes that retype it.
//!
//! The screen capture, image file handling, the OCR engine and the input
//! injection are operating-system work and live outside this crate; what
//! stands here is the logic between those edges: the fixed-threshold
//! binarization, the text sanitizer, the character-to-key table and the
//! keystroke event sequences, each with a proved contract.

pub mod keys;
pub mod preprocess;
pub mod region;
pub mod sanitize;
pub mod typist;
