//! Reading a number aloud.
//!
//! A string of digits is first spelled out in full, every digit followed by
//! the unit of its place: 십, 백, 천 within a group of four digits, and a word
//! of the ladder of large units (만, 억, 조, ...) where a group ends. What is
//! not pronounced is then struck out, rule by rule: zeros with their small
//! units, large units that follow each other directly, and the 일 in front
//! of 만, 천, 백 and 십.
//!
//! The large unit of a group belongs to the whole group, so it stays where
//! the last digit of the group is a zero: 100000 is read 십만. Where a whole
//! group is zero its unit follows the unit of the group before, and is struck
//! for that.
//!
//! The ladder has twelve words. A digit that stands where a thirteenth or
//! later word would be due is spelled without a unit. A large unit is struck
//! only where another one stands directly in front of it, so a number that
//! begins with zeros can be read with a unit at the front.
//!
//! The eighth word of the ladder is pronounced like the digit nine. While the
//! rules are applied it is written '溝', and becomes '구' before the last of
//! them.

use crate::hangeul::{is_syllable, position};
use crate::text::{chars_of, string_of};
use vstd::prelude::*;

verus! {

/// How the ten digits are pronounced.
pub const DIGITS: [char; 10] = ['영', '일', '이', '삼', '사', '오', '육', '칠', '팔', '구'];

/// The units of the second, third and fourth digit of a group.
pub const EXPS_UNTIL_1000: [char; 3] = ['십', '백', '천'];

/// The ladder of large units, one for each further group of four digits.
pub const EXPS: [char; 12] = ['만', '억', '조', '경', '해', '자', '양', '溝', '간', '정', '재', '극'];

/// Whether `c` is an ASCII digit.
pub open spec fn is_digit(c: char) -> bool {
    '0' <= c <= '9'
}

/// Whether `s` holds ASCII digits only.
pub open spec fn all_digits(s: Seq<char>) -> bool {
    forall|i: int| 0 <= i < s.len() ==> is_digit(#[trigger] s[i])
}

/// How the digit `c` is pronounced.
pub open spec fn digit_syllable(c: char) -> char
    recommends
        is_digit(c),
{
    DIGITS[c as int - 48]
}

/// Whether `c` is one of 십, 백, 천.
pub open spec fn is_small_unit(c: char) -> bool {
    c == '십' || c == '백' || c == '천'
}

/// Whether `c` is a word of the ladder of large units.
pub open spec fn is_large_unit(c: char) -> bool {
    exists|i: int| 0 <= i < 12 && EXPS[i] == c
}

/// The unit of the digit that has `place` digits to its right, if it has one.
pub open spec fn unit_word(place: int) -> Option<char> {
    if place <= 0 {
        None
    } else if place % 4 != 0 {
        Some(EXPS_UNTIL_1000[place % 4 - 1])
    } else if place / 4 <= 12 {
        Some(EXPS[place / 4 - 1])
    } else {
        None
    }
}

/// The digit `c` spelled with the unit of its place.
pub open spec fn digit_with_unit(c: char, place: int) -> Seq<char> {
    match unit_word(place) {
        Some(unit) => seq![digit_syllable(c), unit],
        None => seq![digit_syllable(c)],
    }
}

/// The first `upto` digits of `digits`, each spelled with its unit.
pub open spec fn spelled_upto(digits: Seq<char>, upto: int) -> Seq<char>
    decreases upto,
{
    if upto <= 0 {
        Seq::empty()
    } else {
        spelled_upto(digits, upto - 1) + digit_with_unit(digits[upto - 1], digits.len() - upto)
    }
}

/// All of `digits`, each spelled with its unit.
pub open spec fn spelled(digits: Seq<char>) -> Seq<char> {
    spelled_upto(digits, digits.len() as int)
}

/// A rule that strikes characters out of a spelled number.
#[derive(Clone, Copy, Debug, PartialEq, Eq, Structural)]
pub enum Elision {
    /// Strikes every 영, and the 십, 백 or 천 that follows one directly.
    Zeros,
    /// Strikes a large unit that follows another large unit directly.
    RepeatedUnits,
    /// Strikes an 일 that stands directly in front of 만, 천, 백 or 십.
    SilentOnes,
}

/// Whether the character at `i` in `t` stays under `rule`.
pub open spec fn survives(rule: Elision, t: Seq<char>, i: int) -> bool
    recommends
        0 <= i < t.len(),
{
    match rule {
        Elision::Zeros => t[i] != '영' && !(is_small_unit(t[i]) && i > 0 && t[i - 1] == '영'),
        Elision::RepeatedUnits => !(is_large_unit(t[i]) && i > 0 && is_large_unit(t[i - 1])),
        Elision::SilentOnes => !(t[i] == '일' && i + 1 < t.len() && (t[i + 1] == '만'
            || is_small_unit(t[i + 1]))),
    }
}

/// What stays of the first `upto` characters of `t` under `rule`.
pub open spec fn elided_upto(rule: Elision, t: Seq<char>, upto: int) -> Seq<char>
    decreases upto,
{
    if upto <= 0 {
        Seq::empty()
    } else if survives(rule, t, upto - 1) {
        elided_upto(rule, t, upto - 1).push(t[upto - 1])
    } else {
        elided_upto(rule, t, upto - 1)
    }
}

/// What stays of `t` under `rule`.
pub open spec fn elided(rule: Elision, t: Seq<char>) -> Seq<char> {
    elided_upto(rule, t, t.len() as int)
}

/// `c` as it is pronounced: '溝' stands for '구'.
pub open spec fn restored_char(c: char) -> char {
    if c == '溝' {
        '구'
    } else {
        c
    }
}

/// `t` with every '溝' turned to '구'.
pub open spec fn restored(t: Seq<char>) -> Seq<char> {
    Seq::new(t.len(), |i: int| restored_char(t[i]))
}

/// How the number written with `digits` is read. A single digit is read by
/// its name, zero too. Longer numbers are spelled out, and the three
/// rules are applied in turn.
pub open spec fn reading(digits: Seq<char>) -> Seq<char> {
    if digits.len() == 1 {
        seq![digit_syllable(digits[0])]
    } else {
        elided(
            Elision::SilentOnes,
            restored(elided(Elision::RepeatedUnits, elided(Elision::Zeros, spelled(digits)))),
        )
    }
}

/// Whether `c` can occur while a number is read: a syllable, or '溝'.
pub open spec fn is_spelling_char(c: char) -> bool {
    is_syllable(c) || c == '溝'
}

/// Digits and units are spelled with syllables and '溝' alone.
pub proof fn lemma_spelled_chars(digits: Seq<char>, upto: int)
    requires
        all_digits(digits),
        0 <= upto <= digits.len(),
    ensures
        forall|i: int|
            0 <= i < spelled_upto(digits, upto).len() ==> is_spelling_char(
                #[trigger] spelled_upto(digits, upto)[i],
            ),
    decreases upto,
{
    if upto > 0 {
        lemma_spelled_chars(digits, upto - 1);
        let before = spelled_upto(digits, upto - 1);
        let added = digit_with_unit(digits[upto - 1], digits.len() - upto);
        assert(is_digit(digits[upto - 1]));
        assert forall|i: int| 0 <= i < added.len() implies is_spelling_char(#[trigger] added[i]) by {
        }
        assert forall|i: int| 0 <= i < spelled_upto(digits, upto).len() implies is_spelling_char(
            #[trigger] spelled_upto(digits, upto)[i],
        ) by {
            if i < before.len() {
                assert(spelled_upto(digits, upto)[i] == before[i]);
            } else {
                assert(spelled_upto(digits, upto)[i] == added[i - before.len()]);
            }
        }
    }
}

/// A rule only strikes out: what holds of every character of `t` holds of
/// every character that stays.
pub proof fn lemma_elided_chars(
    rule: Elision,
    t: Seq<char>,
    upto: int,
    holds: spec_fn(char) -> bool,
)
    requires
        0 <= upto <= t.len(),
        forall|i: int| 0 <= i < t.len() ==> holds(#[trigger] t[i]),
    ensures
        forall|i: int|
            0 <= i < elided_upto(rule, t, upto).len() ==> holds(
                #[trigger] elided_upto(rule, t, upto)[i],
            ),
    decreases upto,
{
    if upto > 0 {
        lemma_elided_chars(rule, t, upto - 1, holds);
        let before = elided_upto(rule, t, upto - 1);
        assert forall|i: int| 0 <= i < elided_upto(rule, t, upto).len() implies holds(
            #[trigger] elided_upto(rule, t, upto)[i],
        ) by {
            if i < before.len() {
                assert(elided_upto(rule, t, upto)[i] == before[i]);
            } else {
                assert(elided_upto(rule, t, upto)[i] == t[upto - 1]);
            }
        }
    }
}

/// No digits are read as nothing.
pub proof fn lemma_reading_of_nothing()
    ensures
        reading(Seq::<char>::empty()) == Seq::<char>::empty(),
{
    assert(reading(Seq::<char>::empty()) =~= Seq::<char>::empty());
}

/// A number is read with Hangul syllables alone: no digit is left in it,
/// and no '溝'.
pub proof fn lemma_reading_is_hangul(digits: Seq<char>)
    requires
        all_digits(digits),
    ensures
        forall|i: int| 0 <= i < reading(digits).len() ==> is_syllable(#[trigger] reading(digits)[i]),
        forall|i: int| 0 <= i < reading(digits).len() ==> !is_digit(#[trigger] reading(digits)[i]),
{
    if digits.len() == 1 {
        assert(is_digit(digits[0]));
    } else {
        let raw = spelled(digits);
        lemma_spelled_chars(digits, digits.len() as int);
        let spelling = |c: char| is_spelling_char(c);
        let syllable = |c: char| is_syllable(c);
        let first = elided(Elision::Zeros, raw);
        lemma_elided_chars(Elision::Zeros, raw, raw.len() as int, spelling);
        let second = elided(Elision::RepeatedUnits, first);
        lemma_elided_chars(Elision::RepeatedUnits, first, first.len() as int, spelling);
        let third = restored(second);
        assert forall|i: int| 0 <= i < third.len() implies syllable(#[trigger] third[i]) by {
            assert(spelling(second[i]));
        }
        lemma_elided_chars(Elision::SilentOnes, third, third.len() as int, syllable);
        assert forall|i: int| 0 <= i < reading(digits).len() implies is_syllable(
            #[trigger] reading(digits)[i],
        ) by {
            assert(syllable(elided_upto(Elision::SilentOnes, third, third.len() as int)[i]));
        }
    }
}

/// Whether `num` is an ASCII digit.
pub fn is_digits(num: char) -> (res: bool)
    ensures
        res == is_digit(num),
{
    '0' <= num && num <= '9'
}

/// How the digit `num` is pronounced.
pub fn change_int_char(num: char) -> (res: char)
    requires
        is_digit(num),
    ensures
        res == digit_syllable(num),
{
    let idx: usize = (num as u32 - 48) as usize;
    DIGITS[idx]
}

/// The unit of the digit that has `place` digits to its right.
fn unit_at(place: usize) -> (res: Option<char>)
    ensures
        res == unit_word(place as int),
{
    if place == 0 {
        None
    } else if place % 4 != 0 {
        Some(EXPS_UNTIL_1000[place % 4 - 1])
    } else if place / 4 <= 12 {
        Some(EXPS[place / 4 - 1])
    } else {
        None
    }
}

/// Spells every digit with its unit.
fn spell(digits: &Vec<char>) -> (out: Vec<char>)
    requires
        all_digits(digits@),
    ensures
        out@ == spelled(digits@),
{
    let mut out: Vec<char> = Vec::new();
    let mut k: usize = 0;
    while k < digits.len()
        invariant
            k <= digits.len(),
            all_digits(digits@),
            out@ == spelled_upto(digits@, k as int),
        decreases digits.len() - k,
    {
        out.push(change_int_char(digits[k]));
        match unit_at(digits.len() - 1 - k) {
            Some(unit) => {
                out.push(unit);
            },
            None => {},
        }
        k += 1;
        assert(out@ =~= spelled_upto(digits@, k as int));
    }
    out
}

/// Whether `c` is a word of the ladder of large units.
fn is_large(c: char) -> (res: bool)
    ensures
        res == is_large_unit(c),
{
    position(&EXPS, c).is_some()
}

/// Whether `c` is one of 십, 백, 천.
fn is_small(c: char) -> (res: bool)
    ensures
        res == is_small_unit(c),
{
    c == '십' || c == '백' || c == '천'
}

/// Whether the character at `i` stays under `rule`.
fn stays(rule: Elision, t: &Vec<char>, i: usize) -> (res: bool)
    requires
        i < t.len(),
    ensures
        res == survives(rule, t@, i as int),
{
    let c = t[i];
    match rule {
        Elision::Zeros => c != '영' && !(is_small(c) && i > 0 && t[i - 1] == '영'),
        Elision::RepeatedUnits => !(is_large(c) && i > 0 && is_large(t[i - 1])),
        Elision::SilentOnes => !(c == '일' && i + 1 < t.len() && (t[i + 1] == '만' || is_small(
            t[i + 1],
        ))),
    }
}

/// Applies `rule` to `t`.
fn elide(rule: Elision, t: &Vec<char>) -> (out: Vec<char>)
    ensures
        out@ == elided(rule, t@),
{
    let mut out: Vec<char> = Vec::new();
    let mut i: usize = 0;
    while i < t.len()
        invariant
            i <= t.len(),
            out@ == elided_upto(rule, t@, i as int),
        decreases t.len() - i,
    {
        if stays(rule, t, i) {
            out.push(t[i]);
        }
        i += 1;
    }
    out
}

/// Turns every '溝' to '구'.
fn restore(t: &Vec<char>) -> (out: Vec<char>)
    ensures
        out@ == restored(t@),
{
    let mut out: Vec<char> = Vec::new();
    let mut i: usize = 0;
    while i < t.len()
        invariant
            i <= t.len(),
            out@ == restored(t@).take(i as int),
        decreases t.len() - i,
    {
        let c = t[i];
        out.push(if c == '溝' { '구' } else { c });
        i += 1;
        assert(out@ =~= restored(t@).take(i as int));
    }
    assert(out@ =~= restored(t@));
    out
}

/// Reads the number written with `digits`.
pub fn read_digits(digits: &Vec<char>) -> (res: Vec<char>)
    requires
        all_digits(digits@),
    ensures
        res@ == reading(digits@),
        forall|i: int| 0 <= i < res@.len() ==> is_syllable(#[trigger] res@[i]),
{
    proof {
        lemma_reading_is_hangul(digits@);
    }
    if digits.len() == 1 {
        let mut res: Vec<char> = Vec::new();
        res.push(change_int_char(digits[0]));
        assert(res@ =~= reading(digits@));
        res
    } else {
        let raw = spell(digits);
        let without_zeros = elide(Elision::Zeros, &raw);
        let without_repeats = elide(Elision::RepeatedUnits, &without_zeros);
        let pronounced = restore(&without_repeats);
        elide(Elision::SilentOnes, &pronounced)
    }
}

/// Reads the number that `num` writes in ASCII digits: "500" gives "오백".
/// No digit is left in what comes back.
pub fn change_num_to_hangeul(num: &str) -> (res: String)
    requires
        all_digits(num@),
    ensures
        res@ == reading(num@),
        forall|i: int| 0 <= i < res@.len() ==> is_syllable(#[trigger] res@[i]),
        forall|i: int| 0 <= i < res@.len() ==> !is_digit(#[trigger] res@[i]),
{
    proof {
        lemma_reading_is_hangul(num@);
    }
    let digits = chars_of(num);
    let read = read_digits(&digits);
    string_of(&read)
}

} // verus!
