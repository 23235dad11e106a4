//! Hangul syllables and their phonemes.
//!
//! A precomposed syllable (U+AC00 to U+D7A3) is made of an initial consonant,
//! a medial vowel and a final consonant, which may be missing. Taking the
//! syllables in code point order, the final changes fastest and the initial
//! slowest, so the three are found by division and put together again by
//! multiplication.
//!
//! A triple of phonemes is written with compatibility jamo, and `' '` in the
//! third place says that the syllable has no final consonant.

use vstd::prelude::*;

verus! {

/// Code point of '가', the first syllable.
pub const SYLLABLE_BASE: u32 = 0xAC00;

/// Number of medial vowels.
pub const MEDIAL_COUNT: usize = 21;

/// Number of finals, the missing one included.
pub const FINAL_COUNT: usize = 28;

/// The initial consonants, in syllable order.
pub const INITIAL: [char; 19] = [
    'ㄱ', 'ㄲ', 'ㄴ', 'ㄷ', 'ㄸ', 'ㄹ', 'ㅁ', 'ㅂ', 'ㅃ', 'ㅅ', 'ㅆ', 'ㅇ', 'ㅈ', 'ㅉ', 'ㅊ', 'ㅋ',
    'ㅌ', 'ㅍ', 'ㅎ',
];

/// The medial vowels, in syllable order.
pub const MEDIAL: [char; 21] = [
    'ㅏ', 'ㅐ', 'ㅑ', 'ㅒ', 'ㅓ', 'ㅔ', 'ㅕ', 'ㅖ', 'ㅗ', 'ㅘ', 'ㅙ', 'ㅚ', 'ㅛ', 'ㅜ', 'ㅝ', 'ㅞ',
    'ㅟ', 'ㅠ', 'ㅡ', 'ㅢ', 'ㅣ',
];

/// The finals, in syllable order; the first says that there is none.
pub const FINAL: [char; 28] = [
    ' ', 'ㄱ', 'ㄲ', 'ㄳ', 'ㄴ', 'ㄵ', 'ㄶ', 'ㄷ', 'ㄹ', 'ㄺ', 'ㄻ', 'ㄼ', 'ㄽ', 'ㄾ', 'ㄿ', 'ㅀ',
    'ㅁ', 'ㅂ', 'ㅄ', 'ㅅ', 'ㅆ', 'ㅇ', 'ㅈ', 'ㅊ', 'ㅋ', 'ㅌ', 'ㅍ', 'ㅎ',
];

/// Whether `c` is a precomposed Hangul syllable.
pub open spec fn is_syllable(c: char) -> bool {
    '가' <= c <= '힣'
}

/// Whether `word` is a Hangul syllable.
pub fn is_hangeul(word: char) -> (res: bool)
    ensures
        res == is_syllable(word),
{
    '가' <= word && word <= '힣'
}

/// Whether `c` is a consonant letter, 'ㄱ' to 'ㅎ', clusters included.
pub open spec fn is_consonant_letter(c: char) -> bool {
    'ㄱ' <= c <= 'ㅎ'
}

/// Whether `c` is a vowel letter, 'ㅏ' to 'ㅣ'.
pub open spec fn is_vowel_letter(c: char) -> bool {
    'ㅏ' <= c <= 'ㅣ'
}

/// Place of `c` among the initial consonants, if it is one.
pub open spec fn initial_index(c: char) -> Option<int> {
    if c == 'ㄱ' {
        Some(0int)
    } else if c == 'ㄲ' {
        Some(1int)
    } else if c == 'ㄴ' {
        Some(2int)
    } else if c == 'ㄷ' {
        Some(3int)
    } else if c == 'ㄸ' {
        Some(4int)
    } else if c == 'ㄹ' {
        Some(5int)
    } else if c == 'ㅁ' {
        Some(6int)
    } else if c == 'ㅂ' {
        Some(7int)
    } else if c == 'ㅃ' {
        Some(8int)
    } else if c == 'ㅅ' {
        Some(9int)
    } else if c == 'ㅆ' {
        Some(10int)
    } else if c == 'ㅇ' {
        Some(11int)
    } else if c == 'ㅈ' {
        Some(12int)
    } else if c == 'ㅉ' {
        Some(13int)
    } else if c == 'ㅊ' {
        Some(14int)
    } else if c == 'ㅋ' {
        Some(15int)
    } else if c == 'ㅌ' {
        Some(16int)
    } else if c == 'ㅍ' {
        Some(17int)
    } else if c == 'ㅎ' {
        Some(18int)
    } else {
        None
    }
}

/// Place of `c` among the medial vowels, if it is one. The vowel letters
/// stand in syllable order, so the place is the distance from 'ㅏ'.
pub open spec fn medial_index(c: char) -> Option<int> {
    if is_vowel_letter(c) {
        Some(c as int - 'ㅏ' as int)
    } else {
        None
    }
}

/// Place of `c` among the finals, if it is one; `' '` has place 0.
pub open spec fn final_index(c: char) -> Option<int> {
    if c == ' ' {
        Some(0int)
    } else if c == 'ㄱ' {
        Some(1int)
    } else if c == 'ㄲ' {
        Some(2int)
    } else if c == 'ㄳ' {
        Some(3int)
    } else if c == 'ㄴ' {
        Some(4int)
    } else if c == 'ㄵ' {
        Some(5int)
    } else if c == 'ㄶ' {
        Some(6int)
    } else if c == 'ㄷ' {
        Some(7int)
    } else if c == 'ㄹ' {
        Some(8int)
    } else if c == 'ㄺ' {
        Some(9int)
    } else if c == 'ㄻ' {
        Some(10int)
    } else if c == 'ㄼ' {
        Some(11int)
    } else if c == 'ㄽ' {
        Some(12int)
    } else if c == 'ㄾ' {
        Some(13int)
    } else if c == 'ㄿ' {
        Some(14int)
    } else if c == 'ㅀ' {
        Some(15int)
    } else if c == 'ㅁ' {
        Some(16int)
    } else if c == 'ㅂ' {
        Some(17int)
    } else if c == 'ㅄ' {
        Some(18int)
    } else if c == 'ㅅ' {
        Some(19int)
    } else if c == 'ㅆ' {
        Some(20int)
    } else if c == 'ㅇ' {
        Some(21int)
    } else if c == 'ㅈ' {
        Some(22int)
    } else if c == 'ㅊ' {
        Some(23int)
    } else if c == 'ㅋ' {
        Some(24int)
    } else if c == 'ㅌ' {
        Some(25int)
    } else if c == 'ㅍ' {
        Some(26int)
    } else if c == 'ㅎ' {
        Some(27int)
    } else {
        None
    }
}

/// Whether the three phonemes make a syllable: a legal initial, a legal
/// medial and a legal final, which may be the missing one.
pub open spec fn composable(word: [char; 3]) -> bool {
    &&& initial_index(word[0]) is Some
    &&& medial_index(word[1]) is Some
    &&& final_index(word[2]) is Some
}

/// The syllable with the given places in the three tables.
pub open spec fn syllable_at(initial: int, medial: int, last: int) -> char {
    (0xAC00 + (initial * 21 + medial) * 28 + last) as char
}

/// What the three phonemes are joined to: their syllable, or, where they make
/// none, the first of them as it is.
pub open spec fn joined(word: [char; 3]) -> char {
    if composable(word) {
        syllable_at(
            initial_index(word[0])->0,
            medial_index(word[1])->0,
            final_index(word[2])->0,
        )
    } else {
        word[0]
    }
}

/// What a character is split into: the three phonemes of a syllable, or, for
/// any other character, the character itself followed by two blanks.
pub open spec fn split(c: char) -> [char; 3] {
    if is_syllable(c) {
        let offset: int = c as int - 0xAC00;
        [INITIAL[offset / (21int * 28)], MEDIAL[(offset / 28int) % 21], FINAL[offset % 28int]]
    } else {
        [c, ' ', ' ']
    }
}

/// The tables and the places agree: each entry has its index as its place,
/// and a character with a place is the entry at that place.
pub proof fn lemma_tables()
    ensures
        forall|i: int| 0 <= i < 19 ==> initial_index(#[trigger] INITIAL[i]) == Some(i),
        forall|i: int| 0 <= i < 21 ==> medial_index(#[trigger] MEDIAL[i]) == Some(i),
        forall|i: int| 0 <= i < 28 ==> final_index(#[trigger] FINAL[i]) == Some(i),
        forall|c: char|
            initial_index(c) is Some ==> 0 <= (#[trigger] initial_index(c))->0 < 19
                && INITIAL[initial_index(c)->0] == c,
        forall|c: char|
            medial_index(c) is Some ==> 0 <= (#[trigger] medial_index(c))->0 < 21
                && MEDIAL[medial_index(c)->0] == c,
        forall|c: char|
            final_index(c) is Some ==> 0 <= (#[trigger] final_index(c))->0 < 28
                && FINAL[final_index(c)->0] == c,
{
}

/// Joining what a character was split into gives the character back: a
/// syllable through its three phonemes, any other character because its
/// triple makes no syllable.
pub proof fn lemma_join_split(c: char)
    ensures
        composable(split(c)) == is_syllable(c),
        joined(split(c)) == c,
{
    lemma_tables();
    if is_syllable(c) {
        let offset: int = c as int - 0xAC00;
        assert(0 <= offset / (21int * 28) < 19);
        assert(offset == ((offset / (21int * 28)) * 21 + (offset / 28int) % 21) * 28 + offset
            % 28int);
    }
}

/// Splitting the syllable that three phonemes were joined to gives the three
/// phonemes back.
pub proof fn lemma_split_join(word: [char; 3])
    requires
        composable(word),
    ensures
        is_syllable(joined(word)),
        split(joined(word)) == word,
{
    lemma_tables();
    let i = initial_index(word[0])->0;
    let m = medial_index(word[1])->0;
    let f = final_index(word[2])->0;
    let offset: int = (i * 21 + m) * 28 + f;
    assert(0 <= offset <= 11171);
    assert(offset / (21int * 28) == i);
    assert((offset / 28int) % 21 == m);
    assert(offset % 28int == f);
    assert(split(joined(word))@ =~= word@);
}

/// `char::from_u32` gives the character with the code point `i`, and `None`
/// where `i` is a surrogate or lies beyond U+10FFFF.
pub assume_specification[ char::from_u32 ](i: u32) -> (res: Option<char>)
    ensures
        res == if i <= 0xD7FF || 0xE000 <= i <= 0x10FFFF {
            Some(i as char)
        } else {
            None::<char>
        },
;

/// The first index at which `table` holds `c`.
pub(crate) fn position<const N: usize>(table: &[char; N], c: char) -> (res: Option<usize>)
    ensures
        match res {
            Some(i) => i < N && table[i as int] == c && forall|j: int| 0 <= j < i ==> table[j] != c,
            None => forall|j: int| 0 <= j < N ==> table[j] != c,
        },
{
    let mut i: usize = 0;
    while i < N
        invariant
            i <= N,
            forall|j: int| 0 <= j < i ==> table[j] != c,
        decreases N - i,
    {
        if table[i] == c {
            return Some(i);
        }
        i += 1;
    }
    None
}

/// Whether `word` is a consonant letter.
pub fn is_consonant(word: char) -> (res: bool)
    ensures
        res == is_consonant_letter(word),
{
    'ㄱ' <= word && word <= 'ㅎ'
}

/// Whether `word` is a vowel letter, which is the same as being a medial.
pub fn is_medial(word: char) -> (res: bool)
    ensures
        res == is_vowel_letter(word),
        res == medial_index(word) is Some,
{
    'ㅏ' <= word && word <= 'ㅣ'
}

/// Whether the three phonemes make a syllable.
pub fn is_hangul_syllable(word: [char; 3]) -> (res: bool)
    ensures
        res == composable(word),
{
    proof {
        lemma_tables();
    }
    if is_consonant(word[0]) && is_medial(word[1]) {
        position(&INITIAL, word[0]).is_some() && position(&FINAL, word[2]).is_some()
    } else {
        false
    }
}

/// Joins an initial, a medial and a final to their syllable. Where the three
/// make no syllable, the first of them is handed back as it is.
pub fn join_phonemes(word: [char; 3]) -> (res: char)
    ensures
        res == joined(word),
        composable(word) ==> is_syllable(res) && split(res) == word,
{
    proof {
        lemma_tables();
        if composable(word) {
            lemma_split_join(word);
        }
    }
    let (idx_begin, idx_middle, idx_end) = match (
        position(&INITIAL, word[0]),
        position(&MEDIAL, word[1]),
        position(&FINAL, word[2]),
    ) {
        (Some(b), Some(m), Some(e)) => (b, m, e),
        _ => { return word[0]; },
    };
    let offset: u32 = ((idx_begin * MEDIAL_COUNT + idx_middle) * FINAL_COUNT + idx_end) as u32;
    char::from_u32(SYLLABLE_BASE + offset).unwrap()
}

/// Splits a syllable into its initial, medial and final, with `' '` for a
/// missing final. Any other character comes back in the first place, with
/// blanks in the other two.
pub fn split_phonemes(word: char) -> (res: [char; 3])
    ensures
        res == split(word),
        joined(res) == word,
{
    proof {
        lemma_join_split(word);
    }
    if !is_hangeul(word) {
        return [word, ' ', ' '];
    }
    let offset: u32 = word as u32 - SYLLABLE_BASE;
    let idx_begin: usize = (offset / 588) as usize;
    let idx_middle: usize = ((offset / 28) % 21) as usize;
    let idx_end: usize = (offset % 28) as usize;
    [INITIAL[idx_begin], MEDIAL[idx_middle], FINAL[idx_end]]
}

} // verus!
