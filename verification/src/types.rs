//! The closed alphabets that the segmenter's model is keyed on: the script
//! category of a character, the rolling record of past boundary decisions,
//! and the elements of the sentinel-padded character sequence.

use vstd::prelude::*;

verus! {

/// Coarse script category of a single character.
///
/// Every character falls in exactly one category; sentinels at the padded
/// edges count as `Other`.
#[derive(Clone, Copy, Debug, PartialEq, Eq, Structural)]
pub enum Category {
    /// One of the fifteen CJK numeral ideographs ("one" through "trillion").
    KanjiNumeral,
    /// A Han ideograph, or one of the iteration / small-katakana marks.
    Han,
    /// Katakana, half-width katakana, or a prolonged-sound mark.
    Kana,
    /// Hiragana.
    Hiragana,
    /// An ASCII or full-width Latin letter.
    Latin,
    /// An ASCII or full-width digit.
    Digit,
    /// Anything else.
    Other,
}

/// One slot of the rolling three-slot history of boundary decisions.
#[derive(Clone, Copy, Debug, PartialEq, Eq, Structural)]
pub enum PrevTag {
    /// No decision has been made for this slot yet.
    Unknown,
    /// The decision at this slot placed a boundary.
    Boundary,
    /// The decision at this slot placed no boundary.
    NoBoundary,
}

/// One element of the padded character sequence: a real character of the
/// input, or one of the six distinct edge sentinels.
#[derive(Clone, Copy, Debug, PartialEq, Eq, Structural)]
pub enum Elem {
    /// Third begin sentinel (outermost).
    B3,
    /// Second begin sentinel.
    B2,
    /// First begin sentinel (innermost).
    B1,
    /// First end sentinel (innermost).
    E1,
    /// Second end sentinel.
    E2,
    /// Third end sentinel (outermost).
    E3,
    /// A real character of the input.
    Ch(char),
}

} // verus!
