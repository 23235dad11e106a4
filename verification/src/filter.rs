//! What counts of a word when a particle is fitted to it.
//!
//! A particle goes by the sound at the end of the word. So of a word only
//! its Hangul syllables count, and its numbers as they are read aloud. What
//! stands in round brackets is an aside and does not count, and neither does
//! any other character.
//!
//! The brackets are not counted against each other: `(` opens an aside, `)`
//! closes it, whatever came before. A `(` inside an aside changes nothing,
//! and a `)` outside of one is skipped like any other sign.

use crate::hangeul::{is_hangeul, is_syllable, split, split_phonemes};
use crate::number::{
    all_digits, is_digit, is_digits, lemma_reading_is_hangul, lemma_reading_of_nothing, read_digits,
    reading,
};
use vstd::prelude::*;

verus! {

/// Where the scan of a word stands.
pub struct Scan {
    /// Whether the scan is inside an aside.
    pub inside: bool,
    /// The digits of the number that is being read.
    pub pending: Seq<char>,
    /// What has been kept so far.
    pub kept: Seq<char>,
}

/// The scan before the first character.
pub open spec fn scan_start() -> Scan {
    Scan { inside: false, pending: Seq::empty(), kept: Seq::empty() }
}

/// Whether the scan is inside an aside once it has seen `c`.
pub open spec fn inside_after(inside: bool, c: char) -> bool {
    if c == '(' {
        true
    } else if c == ')' {
        false
    } else {
        inside
    }
}

/// The scan after one more character. Inside an aside nothing happens. A
/// digit joins the number that is being read. Any other character ends that
/// number, which is kept as it is read aloud, and is kept itself if it is a
/// syllable.
pub open spec fn scan_step(before: Scan, c: char) -> Scan {
    let inside = inside_after(before.inside, c);
    if inside {
        Scan { inside, pending: before.pending, kept: before.kept }
    } else if is_digit(c) {
        Scan { inside, pending: before.pending.push(c), kept: before.kept }
    } else {
        let kept = before.kept + reading(before.pending);
        Scan { inside, pending: Seq::empty(), kept: if is_syllable(c) { kept.push(c) } else { kept } }
    }
}

/// The scan after the first `upto` characters of `word`.
pub open spec fn scanned(word: Seq<char>, upto: int) -> Scan
    decreases upto,
{
    if upto <= 0 {
        scan_start()
    } else {
        scan_step(scanned(word, upto - 1), word[upto - 1])
    }
}

/// What counts of `word`: what the scan has kept at the end of the word,
/// and the number that the word ends with, if it ends with one.
pub open spec fn significant(word: Seq<char>) -> Seq<char> {
    let end = scanned(word, word.len() as int);
    end.kept + reading(end.pending)
}

/// Whether `s` holds Hangul syllables only.
pub open spec fn all_syllables(s: Seq<char>) -> bool {
    forall|i: int| 0 <= i < s.len() ==> is_syllable(#[trigger] s[i])
}

/// The last character that counts, or 'N' where none does.
pub open spec fn last_letter(word: Seq<char>) -> char {
    if significant(word).len() > 0 {
        significant(word).last()
    } else {
        'N'
    }
}

/// The final consonant of the last character that counts: `' '` where that
/// syllable has none, and 'N' where no character counts.
pub open spec fn final_letter(word: Seq<char>) -> char {
    if significant(word).len() > 0 {
        split(significant(word).last())[2]
    } else {
        'N'
    }
}

/// At every point of a scan, the number that is being read holds digits
/// only, and what has been kept holds syllables only.
pub proof fn lemma_scanned(word: Seq<char>, upto: int)
    requires
        0 <= upto <= word.len(),
    ensures
        all_digits(scanned(word, upto).pending),
        all_syllables(scanned(word, upto).kept),
    decreases upto,
{
    if upto > 0 {
        lemma_scanned(word, upto - 1);
        let before = scanned(word, upto - 1);
        lemma_reading_is_hangul(before.pending);
    }
}

/// What counts of a word holds syllables only.
pub proof fn lemma_significant_is_hangul(word: Seq<char>)
    ensures
        all_syllables(significant(word)),
{
    let end = scanned(word, word.len() as int);
    lemma_scanned(word, word.len() as int);
    lemma_reading_is_hangul(end.pending);
}

/// Of a word that is made of syllables alone, every character counts.
pub proof fn lemma_significant_of_hangul(word: Seq<char>)
    requires
        all_syllables(word),
    ensures
        significant(word) == word,
{
    lemma_reading_of_nothing();
    lemma_scan_of_hangul(word, word.len() as int);
    assert(word.take(word.len() as int) =~= word);
    assert(significant(word) =~= word);
}

proof fn lemma_scan_of_hangul(word: Seq<char>, upto: int)
    requires
        all_syllables(word),
        0 <= upto <= word.len(),
    ensures
        scanned(word, upto) == (Scan {
            inside: false,
            pending: Seq::empty(),
            kept: word.take(upto),
        }),
    decreases upto,
{
    lemma_reading_of_nothing();
    if upto > 0 {
        lemma_scan_of_hangul(word, upto - 1);
        assert(is_syllable(word[upto - 1]));
        assert(word.take(upto - 1).push(word[upto - 1]) =~= word.take(upto));
        assert(word.take(upto - 1) + Seq::<char>::empty() =~= word.take(upto - 1));
    } else {
        assert(word.take(0) =~= Seq::<char>::empty());
    }
}

/// Filtering twice is filtering once: of what counts of a word, all counts.
pub proof fn lemma_filter_idempotent(word: Seq<char>)
    ensures
        significant(significant(word)) == significant(word),
{
    lemma_significant_is_hangul(word);
    lemma_significant_of_hangul(significant(word));
}

/// Strips `word` to what counts of it: asides and signs are left out,
/// syllables are kept, and each number is replaced by its reading.
/// "넥슨(코리아)" gives 넥슨, and "비타500" gives 비타오백.
pub fn filter_only_significant(word: &str) -> (output: Vec<char>)
    ensures
        output@ == significant(word@),
        all_syllables(output@),
{
    let mut output: Vec<char> = Vec::new();
    let mut numbers: Vec<char> = Vec::new();
    let mut bracket: bool = false;
    for c in it: word.chars()
        invariant
            it.seq() == word@,
            scanned(word@, it.index() as int) == (Scan {
                inside: bracket,
                pending: numbers@,
                kept: output@,
            }),
    {
        proof {
            lemma_scanned(word@, it.index() as int);
        }
        if c == '(' {
            bracket = true;
        } else if c == ')' {
            bracket = false;
        }
        if !bracket {
            if is_digits(c) {
                numbers.push(c);
            } else {
                let mut read = read_digits(&numbers);
                output.append(&mut read);
                numbers.clear();
                if is_hangeul(c) {
                    output.push(c);
                }
            }
        }
    }
    proof {
        lemma_scanned(word@, word@.len() as int);
        lemma_significant_is_hangul(word@);
    }
    let mut read = read_digits(&numbers);
    output.append(&mut read);
    output
}

/// The last character of `word` that counts, or 'N' where none does, as
/// in a word in another script.
pub fn find_last_letter(word: &str) -> (res: char)
    ensures
        res == last_letter(word@),
        significant(word@).len() > 0 ==> is_syllable(res),
{
    let filtered = filter_only_significant(word);
    if !filtered.is_empty() {
        filtered[filtered.len() - 1]
    } else {
        'N'
    }
}

/// The final consonant that `word` ends with: `' '` where the last
/// syllable has none, and 'N' where no character of the word counts.
pub fn guess_final_letter(word: &str) -> (res: char)
    ensures
        res == final_letter(word@),
{
    let filtered = find_last_letter(word);
    if filtered == 'N' {
        'N'
    } else {
        let phonemes = split_phonemes(filtered);
        phonemes[2]
    }
}

} // verus!
