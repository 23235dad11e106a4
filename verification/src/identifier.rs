//! Telling which particle a string names.
//!
//! A particle may be written in any of its forms, 로 or 으로 or (으)로, and
//! names the same particle in each. What is told apart here is the particle,
//! not the form: the string is stripped to what counts of it, as a word is,
//! and the syllables that are left are looked up, by their number, in one of
//! four lists.

use crate::filter::{all_syllables, filter_only_significant, significant};
use vstd::prelude::*;

verus! {

/// The particles that change with the word in front of them, by name.
#[derive(Clone, Copy, Debug, PartialEq, Eq, Structural)]
pub enum TossiKind {
    /// 든, 이든
    Deun,
    /// 든지, 이든지
    Deunji,
    /// 든가, 이든가
    Deunka,
    /// 를, 을
    Eul,
    /// 다, 이다
    Ida,
    /// 가, 이
    Ka,
    /// 고, 이고
    Ko,
    /// 며, 이며
    Myeo,
    /// 나, 이나
    Na,
    /// 나마, 이나마
    Nama,
    /// 는, 은
    Neun,
    /// 니, 이니
    Ni,
    /// 라도, 이라도
    Rado,
    /// 란, 이란
    Ran,
    /// 랑, 이랑
    Rang,
    /// 라야, 이라야
    Raya,
    /// 야말로, 이야말로
    Yamalro,
    /// 여, 이여
    Yeo,
    /// 와, 과
    Wa,
    /// 로, 으로
    Ro,
    /// 로부터, 으로부터
    Robuteo,
    /// 로서, 으로서
    Roseo,
    /// 로써, 으로써
    Rosseo,
    /// Any other particle: it has one form only.
    Others,
}

/// What at the end of a word makes a particle take its short form.
#[derive(Clone, Copy, Debug, PartialEq, Eq, Structural)]
pub enum TransTossiWhen {
    /// A syllable without final consonant.
    Blank,
    /// A syllable without final consonant, or with the final ㄹ.
    RiEulAndBlank,
    /// Nothing: the particle does not change.
    Nothing,
}

/// A particle as it was told apart.
#[derive(Clone, Debug, PartialEq, Eq)]
pub struct Tossi {
    /// What counts of the string that named the particle.
    pub modified: Vec<char>,
    /// The particle.
    pub kind: TossiKind,
    /// What makes it change.
    pub when: TransTossiWhen,
}

/// The particle that the one syllable `c` names.
pub open spec fn one_letter_kind(c: char) -> TossiKind {
    match c {
        '은' | '는' => TossiKind::Neun,
        '이' | '가' => TossiKind::Ka,
        '을' | '를' => TossiKind::Eul,
        '와' | '과' => TossiKind::Wa,
        '로' => TossiKind::Ro,
        '다' => TossiKind::Ida,
        '나' => TossiKind::Na,
        '랑' => TossiKind::Rang,
        '란' => TossiKind::Ran,
        '며' => TossiKind::Myeo,
        '고' => TossiKind::Ko,
        '니' => TossiKind::Ni,
        '든' => TossiKind::Deun,
        '여' => TossiKind::Yeo,
        _ => TossiKind::Others,
    }
}

/// The particle that the two syllables name.
pub open spec fn two_letters_kind(a: char, b: char) -> TossiKind {
    match (a, b) {
        ('으', '로') => TossiKind::Ro,
        ('로', '서') => TossiKind::Roseo,
        ('로', '써') => TossiKind::Rosseo,
        ('이', '다') => TossiKind::Ida,
        ('이', '나') => TossiKind::Na,
        ('이', '랑') => TossiKind::Rang,
        ('이', '란') => TossiKind::Ran,
        ('나', '마') => TossiKind::Nama,
        ('이', '며') => TossiKind::Myeo,
        ('이', '고') => TossiKind::Ko,
        ('이', '니') => TossiKind::Ni,
        ('이', '든') => TossiKind::Deun,
        ('든', '지') => TossiKind::Deunji,
        ('든', '가') => TossiKind::Deunka,
        ('이', '여') => TossiKind::Yeo,
        ('라', '야') => TossiKind::Raya,
        ('라', '도') => TossiKind::Rado,
        _ => TossiKind::Others,
    }
}

/// The particle that the three syllables name.
pub open spec fn three_letters_kind(a: char, b: char, c: char) -> TossiKind {
    match (a, b, c) {
        ('으', '로', '서') => TossiKind::Roseo,
        ('으', '로', '써') => TossiKind::Rosseo,
        ('로', '부', '터') => TossiKind::Robuteo,
        ('이', '나', '마') => TossiKind::Nama,
        ('야', '말', '로') => TossiKind::Yamalro,
        ('이', '든', '지') => TossiKind::Deunji,
        ('이', '든', '가') => TossiKind::Deunka,
        ('이', '라', '야') => TossiKind::Raya,
        ('이', '라', '도') => TossiKind::Rado,
        _ => TossiKind::Others,
    }
}

/// The particle that the four syllables name.
pub open spec fn four_letters_kind(a: char, b: char, c: char, d: char) -> TossiKind {
    match (a, b, c, d) {
        ('으', '로', '부', '터') => TossiKind::Robuteo,
        ('이', '야', '말', '로') => TossiKind::Yamalro,
        _ => TossiKind::Others,
    }
}

/// The particle that `modified` names. One to four syllables are looked up
/// in the list for their number; nothing, and anything longer, names no
/// particle that changes.
pub open spec fn kind_of(modified: Seq<char>) -> TossiKind {
    if modified.len() == 1 {
        one_letter_kind(modified[0])
    } else if modified.len() == 2 {
        two_letters_kind(modified[0], modified[1])
    } else if modified.len() == 3 {
        three_letters_kind(modified[0], modified[1], modified[2])
    } else if modified.len() == 4 {
        four_letters_kind(modified[0], modified[1], modified[2], modified[3])
    } else {
        TossiKind::Others
    }
}

/// What makes the particle `kind` change: for 로 and the particles that
/// begin with it, a missing final or the final ㄹ; for the others that
/// change, a missing final.
pub open spec fn rule_of(kind: TossiKind) -> TransTossiWhen {
    match kind {
        TossiKind::Ro | TossiKind::Robuteo | TossiKind::Roseo | TossiKind::Rosseo => {
            TransTossiWhen::RiEulAndBlank
        },
        TossiKind::Others => TransTossiWhen::Nothing,
        _ => TransTossiWhen::Blank,
    }
}

impl Tossi {
    /// Whether the three fields belong together: the particle is the one
    /// that the syllables name, and the rule is the rule of that particle.
    pub open spec fn wf(&self) -> bool {
        &&& all_syllables(self.modified@)
        &&& self.kind == kind_of(self.modified@)
        &&& self.when == rule_of(self.kind)
    }

    /// Tells which particle `raw` names.
    pub fn new(raw: &str) -> (res: Self)
        ensures
            res.modified@ == significant(raw@),
            res.kind == kind_of(significant(raw@)),
            res.when == rule_of(res.kind),
            res.wf(),
    {
        let temp_modified = filter_only_significant(raw);
        let temp_kind = match temp_modified.len() {
            1 => one_letter(temp_modified[0]),
            2 => two_letters(temp_modified.as_slice()),
            3 => three_letters(temp_modified.as_slice()),
            4 => four_letters(temp_modified.as_slice()),
            _ => TossiKind::Others,
        };
        let temp_trans_tossi_when = trans_tossi_when(temp_kind);
        Self { modified: temp_modified, kind: temp_kind, when: temp_trans_tossi_when }
    }
}

/// What makes the particle `kind` change.
pub fn trans_tossi_when(kind: TossiKind) -> (res: TransTossiWhen)
    ensures
        res == rule_of(kind),
{
    match kind {
        TossiKind::Ro => TransTossiWhen::RiEulAndBlank,
        TossiKind::Robuteo => TransTossiWhen::RiEulAndBlank,
        TossiKind::Roseo => TransTossiWhen::RiEulAndBlank,
        TossiKind::Rosseo => TransTossiWhen::RiEulAndBlank,
        TossiKind::Others => TransTossiWhen::Nothing,
        _ => TransTossiWhen::Blank,
    }
}

/// Tells a particle of one syllable.
fn one_letter(element: char) -> (res: TossiKind)
    ensures
        res == one_letter_kind(element),
{
    match element {
        '은' | '는' => TossiKind::Neun,
        '이' | '가' => TossiKind::Ka,
        '을' | '를' => TossiKind::Eul,
        '와' | '과' => TossiKind::Wa,
        '로' => TossiKind::Ro,
        '다' => TossiKind::Ida,
        '나' => TossiKind::Na,
        '랑' => TossiKind::Rang,
        '란' => TossiKind::Ran,
        '며' => TossiKind::Myeo,
        '고' => TossiKind::Ko,
        '니' => TossiKind::Ni,
        '든' => TossiKind::Deun,
        '여' => TossiKind::Yeo,
        _ => TossiKind::Others,
    }
}

/// Tells a particle of two syllables.
fn two_letters(elements: &[char]) -> (res: TossiKind)
    requires
        elements@.len() == 2,
    ensures
        res == two_letters_kind(elements@[0], elements@[1]),
{
    match (elements[0], elements[1]) {
        ('으', '로') => TossiKind::Ro,
        ('로', '서') => TossiKind::Roseo,
        ('로', '써') => TossiKind::Rosseo,
        ('이', '다') => TossiKind::Ida,
        ('이', '나') => TossiKind::Na,
        ('이', '랑') => TossiKind::Rang,
        ('이', '란') => TossiKind::Ran,
        ('나', '마') => TossiKind::Nama,
        ('이', '며') => TossiKind::Myeo,
        ('이', '고') => TossiKind::Ko,
        ('이', '니') => TossiKind::Ni,
        ('이', '든') => TossiKind::Deun,
        ('든', '지') => TossiKind::Deunji,
        ('든', '가') => TossiKind::Deunka,
        ('이', '여') => TossiKind::Yeo,
        ('라', '야') => TossiKind::Raya,
        ('라', '도') => TossiKind::Rado,
        _ => TossiKind::Others,
    }
}

/// Tells a particle of three syllables.
fn three_letters(elements: &[char]) -> (res: TossiKind)
    requires
        elements@.len() == 3,
    ensures
        res == three_letters_kind(elements@[0], elements@[1], elements@[2]),
{
    match (elements[0], elements[1], elements[2]) {
        ('으', '로', '서') => TossiKind::Roseo,
        ('으', '로', '써') => TossiKind::Rosseo,
        ('로', '부', '터') => TossiKind::Robuteo,
        ('이', '나', '마') => TossiKind::Nama,
        ('야', '말', '로') => TossiKind::Yamalro,
        ('이', '든', '지') => TossiKind::Deunji,
        ('이', '든', '가') => TossiKind::Deunka,
        ('이', '라', '야') => TossiKind::Raya,
        ('이', '라', '도') => TossiKind::Rado,
        _ => TossiKind::Others,
    }
}

/// Tells a particle of four syllables.
fn four_letters(elements: &[char]) -> (res: TossiKind)
    requires
        elements@.len() == 4,
    ensures
        res == four_letters_kind(elements@[0], elements@[1], elements@[2], elements@[3]),
{
    match (elements[0], elements[1], elements[2], elements[3]) {
        ('으', '로', '부', '터') => TossiKind::Robuteo,
        ('이', '야', '말', '로') => TossiKind::Yamalro,
        _ => TossiKind::Others,
    }
}

} // verus!
