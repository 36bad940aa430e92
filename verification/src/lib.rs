//! A compact segmenter for unspaced Japanese text.
//!
//! The segmenter splits a string into word-like tokens without a dictionary:
//! each character is given a coarse script category, a fixed window of
//! characters and categories around every candidate boundary is scored
//! against a pretrained linear model, and a boundary is placed wherever the
//! score is strictly positive.  Concatenating the returned tokens in order
//! always reproduces the input exactly.

pub mod category;
pub mod scorer;
pub mod segmenter;
pub mod types;
pub mod weights;
pub mod window;

pub use category::get_ctype;
pub use segmenter::tokenize;
pub use segmenter::TokenizeError;
pub use types::Category;
