//! Whether a word and a particle are taken at all.
//!
//! A particle is taken if it is written exactly as one of the listed
//! particles. A word is taken if it is short enough: the limit is fifty
//! characters, and a word of fifty characters is already too long.

use crate::error::InvalidValue;
use vstd::prelude::*;

verus! {

/// The particles that are taken, as they have to be written.
pub const TOSSI_LIST: [&'static str; 42] = [
    "(가)이", "(는)은", "(를)을", "(으)로", "(을)를", "(이)가", "(이)다",
    "가", "같이", "까지", "께", "는", "다", "도", "로", "를", "마냥",
    "마저", "만", "밖에", "보다", "부터", "뿐", "에", "에게", "에게로",
    "에게서", "에다가", "에서", "에서부터", "으로", "은", "은(는)", "을",
    "의", "이", "이다", "조차", "처럼", "커녕", "하고", "한테",
];

/// The length from which a word is too long.
pub const WORD_LIMIT: usize = 50;

/// `<str as PartialEq>::eq`, the `==` of two string slices, is true of two
/// slices that hold the same characters, and of no others.
pub assume_specification[ <str as PartialEq>::eq ](a: &str, b: &str) -> (res: bool)
    ensures
        res == (a@ == b@),
;

/// Whether `tossi` is written as one of the listed particles.
pub open spec fn is_listed(tossi: Seq<char>) -> bool {
    exists|i: int| 0 <= i < 42 && (#[trigger] TOSSI_LIST[i])@ == tossi
}

/// Whether a word of `len` characters is too long.
pub open spec fn too_long(len: nat) -> bool {
    len >= WORD_LIMIT
}

/// What is found of `word` and `tossi`: the particle is looked at first,
/// then the length of the word.
pub open spec fn verdict(word: Seq<char>, tossi: Seq<char>) -> Result<(), InvalidValue> {
    if !is_listed(tossi) {
        Err(InvalidValue::InvalidTossi)
    } else if too_long(word.len()) {
        Err(InvalidValue::LimitLength)
    } else {
        Ok(())
    }
}

/// Checks `word` and `tossi` before the particle is fitted to the word.
pub fn validate<'a>(word: &'a str, tossi: &'a str) -> (res: Result<(), InvalidValue>)
    ensures
        res == verdict(word@, tossi@),
{
    if !is_verifier_tossi(tossi) {
        Err(InvalidValue::InvalidTossi)
    } else if over_limit_word_len(word) {
        Err(InvalidValue::LimitLength)
    } else {
        Ok(())
    }
}

/// Whether `tossi` is written as one of the listed particles.
pub fn is_verifier_tossi(tossi: &str) -> (res: bool)
    ensures
        res == is_listed(tossi@),
{
    let mut i: usize = 0;
    while i < 42
        invariant
            i <= 42,
            forall|j: int| 0 <= j < i ==> (#[trigger] TOSSI_LIST[j])@ != tossi@,
        decreases 42 - i,
    {
        if TOSSI_LIST[i].eq(tossi) {
            return true;
        }
        i += 1;
    }
    false
}

/// Whether `word` is too long: whether it has fifty characters or more.
pub fn over_limit_word_len(word: &str) -> (res: bool)
    ensures
        res == too_long(word@.len()),
{
    word.unicode_len() >= WORD_LIMIT
}

} // verus!
