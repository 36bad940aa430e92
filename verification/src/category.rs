//! The character classifier: one pure, total function from a character to
//! its coarse script category.
//!
//! The checks run in priority order because the ranges overlap: the numeral
//! ideographs lie inside the Han block, so they must be recognised first.

use vstd::prelude::*;

use crate::types::Category;

verus! {

/// Whether `u` is the code point of one of the fifteen CJK numeral
/// ideographs ("one" through "trillion").
pub open spec fn spec_is_kanji_numeral(u: u32) -> bool {
    u == 0x4E00 || u == 0x4E8C || u == 0x4E09 || u == 0x56DB || u == 0x4E94 || u == 0x516D
        || u == 0x4E03 || u == 0x516B || u == 0x4E5D || u == 0x5341 || u == 0x767E
        || u == 0x5343 || u == 0x4E07 || u == 0x5104 || u == 0x5146
}

/// The script category of a character, as a pure function of its code point.
pub open spec fn char_category(c: char) -> Category {
    let u = c as u32;
    if spec_is_kanji_numeral(u) {
        Category::KanjiNumeral
    } else if u == 0x3005 || u == 0x3006 || u == 0x30F5 || u == 0x30F6
        || (0x4E00 <= u && u <= 0x9FA0) {
        Category::Han
    } else if u == 0x30FC || u == 0xFF70 || u == 0xFF9E || (0x30A1 <= u && u <= 0x30F4)
        || (0xFF71 <= u && u <= 0xFF9D) {
        Category::Kana
    } else if 0x3041 <= u && u <= 0x3093 {
        Category::Hiragana
    } else if (0x61 <= u && u <= 0x7A) || (0x41 <= u && u <= 0x5A)
        || (0xFF41 <= u && u <= 0xFF5A) || (0xFF21 <= u && u <= 0xFF3A) {
        Category::Latin
    } else if (0x30 <= u && u <= 0x39) || (0xFF10 <= u && u <= 0xFF19) {
        Category::Digit
    } else {
        Category::Other
    }
}

/// Classify one character.
///
/// Pure and total: the result depends on the character alone, so the same
/// character yields the same category on every call.
pub fn get_ctype(c: char) -> (t: Category)
    ensures
        t == char_category(c),
{
    let u: u32 = c as u32;
    if u == 0x4E00 || u == 0x4E8C || u == 0x4E09 || u == 0x56DB || u == 0x4E94 || u == 0x516D
        || u == 0x4E03 || u == 0x516B || u == 0x4E5D || u == 0x5341 || u == 0x767E
        || u == 0x5343 || u == 0x4E07 || u == 0x5104 || u == 0x5146 {
        Category::KanjiNumeral
    } else if u == 0x3005 || u == 0x3006 || u == 0x30F5 || u == 0x30F6
        || (0x4E00 <= u && u <= 0x9FA0) {
        Category::Han
    } else if u == 0x30FC || u == 0xFF70 || u == 0xFF9E || (0x30A1 <= u && u <= 0x30F4)
        || (0xFF71 <= u && u <= 0xFF9D) {
        Category::Kana
    } else if 0x3041 <= u && u <= 0x3093 {
        Category::Hiragana
    } else if (0x61 <= u && u <= 0x7A) || (0x41 <= u && u <= 0x5A)
        || (0xFF41 <= u && u <= 0xFF5A) || (0xFF21 <= u && u <= 0xFF3A) {
        Category::Latin
    } else if (0x30 <= u && u <= 0x39) || (0xFF10 <= u && u <= 0xFF19) {
        Category::Digit
    } else {
        Category::Other
    }
}

} // verus!
