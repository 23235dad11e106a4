//! Fitting a particle to a word.
//!
//! Each particle that changes has three forms: the one written after a word
//! whose end cannot be told, which shows both readings, as in (으)로; the
//! short one, for a word that ends in a vowel; and the long one, for a word
//! that ends in a consonant. Which of them is due goes by the final
//! consonant of the last syllable that counts of the word. For 로 and the
//! particles that begin with it, a word that ends in ㄹ takes the short form
//! as well.

use crate::filter::{final_letter, guess_final_letter};
use crate::identifier::{rule_of, Tossi, TossiKind, TransTossiWhen};
use vstd::prelude::*;

verus! {

/// The forms of 든 and 이든.
pub const DEUN: (&'static str, &'static str, &'static str) = ("(이)든", "든", "이든");

/// The forms of 든가 and 이든가.
pub const DEUNKA: (&'static str, &'static str, &'static str) = ("(이)든가", "든가", "이든가");

/// The forms of 든지 and 이든지.
pub const DEUNJI: (&'static str, &'static str, &'static str) = ("(이)든지", "든지", "이든지");

/// The forms of 를 and 을.
pub const EUL: (&'static str, &'static str, &'static str) = ("(을)를", "를", "을");

/// The forms of 다 and 이다.
pub const IDA: (&'static str, &'static str, &'static str) = ("(이)다", "다", "이다");

/// The forms of 가 and 이.
pub const KA: (&'static str, &'static str, &'static str) = ("(이)가", "가", "이");

/// The forms of 고 and 이고.
pub const KO: (&'static str, &'static str, &'static str) = ("(이)고", "고", "이고");

/// The forms of 며 and 이며.
pub const MYEO: (&'static str, &'static str, &'static str) = ("(이)며", "며", "이며");

/// The forms of 나 and 이나.
pub const NA: (&'static str, &'static str, &'static str) = ("(이)나", "나", "이나");

/// The forms of 나마 and 이나마.
pub const NAMA: (&'static str, &'static str, &'static str) = ("(이)나마", "나마", "이나마");

/// The forms of 는 and 은.
pub const NEUN: (&'static str, &'static str, &'static str) = ("(은)는", "는", "은");

/// The forms of 니 and 이니.
pub const NI: (&'static str, &'static str, &'static str) = ("(이)니", "니", "이니");

/// The forms of 라도 and 이라도.
pub const RADO: (&'static str, &'static str, &'static str) = ("(이)라도", "라도", "이라도");

/// The forms of 란 and 이란.
pub const RAN: (&'static str, &'static str, &'static str) = ("(이)란", "란", "이란");

/// The forms of 랑 and 이랑.
pub const RANG: (&'static str, &'static str, &'static str) = ("(이)랑", "랑", "이랑");

/// The forms of 라야 and 이라야.
pub const RAYA: (&'static str, &'static str, &'static str) = ("(이)라야", "라야", "이라야");

/// The forms of 야말로 and 이야말로.
pub const YAMALRO: (&'static str, &'static str, &'static str) = ("(이)야말로", "야말로", "이야말로");

/// The forms of 여 and 이여.
pub const YEO: (&'static str, &'static str, &'static str) = ("(이)여", "여", "이여");

/// The forms of 와 and 과.
pub const WA: (&'static str, &'static str, &'static str) = ("(와)과", "와", "과");

/// The forms of 로 and 으로.
pub const RO: (&'static str, &'static str, &'static str) = ("(으)로", "로", "으로");

/// The forms of 로부터 and 으로부터.
pub const ROBUTEO: (&'static str, &'static str, &'static str) = ("(으)로부터", "로부터", "으로부터");

/// The forms of 로서 and 으로서.
pub const ROSEO: (&'static str, &'static str, &'static str) = ("(으)로서", "로서", "으로서");

/// The forms of 로써 and 으로써.
pub const ROSSEO: (&'static str, &'static str, &'static str) = ("(으)로써", "로써", "으로써");

/// What stands for the forms of a particle that has none.
pub const NO_FORMS: (&'static str, &'static str, &'static str) = (" ", " ", " ");

/// Three forms as sequences of characters.
pub open spec fn spelling(forms: (&str, &str, &str)) -> (Seq<char>, Seq<char>, Seq<char>) {
    (forms.0@, forms.1@, forms.2@)
}

/// The three forms of the particle `kind`: the one that shows both
/// readings, the short one and the long one.
pub open spec fn forms_of(kind: TossiKind) -> (Seq<char>, Seq<char>, Seq<char>) {
    spelling(
        match kind {
            TossiKind::Deun => DEUN,
            TossiKind::Deunka => DEUNKA,
            TossiKind::Deunji => DEUNJI,
            TossiKind::Eul => EUL,
            TossiKind::Ida => IDA,
            TossiKind::Ka => KA,
            TossiKind::Ko => KO,
            TossiKind::Myeo => MYEO,
            TossiKind::Na => NA,
            TossiKind::Nama => NAMA,
            TossiKind::Neun => NEUN,
            TossiKind::Ni => NI,
            TossiKind::Rado => RADO,
            TossiKind::Ran => RAN,
            TossiKind::Rang => RANG,
            TossiKind::Raya => RAYA,
            TossiKind::Yamalro => YAMALRO,
            TossiKind::Yeo => YEO,
            TossiKind::Wa => WA,
            TossiKind::Ro => RO,
            TossiKind::Roseo => ROSEO,
            TossiKind::Rosseo => ROSSEO,
            TossiKind::Robuteo => ROBUTEO,
            TossiKind::Others => NO_FORMS,
        },
    )
}

/// The form that follows `word` where only a missing final makes a
/// particle short: the first form where the end of the word cannot be told,
/// the second after a syllable without final, else the third.
pub open spec fn form_when_blank(
    word: Seq<char>,
    forms: (Seq<char>, Seq<char>, Seq<char>),
) -> Seq<char> {
    if final_letter(word) == 'N' {
        forms.0
    } else if final_letter(word) == ' ' {
        forms.1
    } else {
        forms.2
    }
}

/// The form that follows `word` where a missing final and the final ㄹ make
/// a particle short: the first form where the end of the word cannot be
/// told, the second after a syllable without final or with the final ㄹ,
/// else the third.
pub open spec fn form_when_rieul_and_blank(
    word: Seq<char>,
    forms: (Seq<char>, Seq<char>, Seq<char>),
) -> Seq<char> {
    if final_letter(word) == 'N' {
        forms.0
    } else if final_letter(word) == ' ' || final_letter(word) == 'ㄹ' {
        forms.1
    } else {
        forms.2
    }
}

/// The form of the particle `kind` that follows `word`, chosen by the rule
/// `when`. Without a rule there is no form, and a blank stands for it.
pub open spec fn surface(word: Seq<char>, kind: TossiKind, when: TransTossiWhen) -> Seq<char> {
    match when {
        TransTossiWhen::Blank => form_when_blank(word, forms_of(kind)),
        TransTossiWhen::RiEulAndBlank => form_when_rieul_and_blank(word, forms_of(kind)),
        TransTossiWhen::Nothing => " "@,
    }
}

/// A particle that changes is fitted to any word, and what follows the word
/// is one of its three forms: the first where the end of the word cannot be
/// told, the second after a syllable without final, the third after a final
/// other than ㄹ. After the final ㄹ, 로 and the particles that begin with it
/// take the second form, and the others the third.
pub proof fn lemma_surface_is_a_form(word: Seq<char>, kind: TossiKind)
    requires
        kind != TossiKind::Others,
    ensures
        ({
            let fitted = surface(word, kind, rule_of(kind));
            let forms = forms_of(kind);
            let last = final_letter(word);
            &&& fitted == forms.0 || fitted == forms.1 || fitted == forms.2
            &&& last == 'N' ==> fitted == forms.0
            &&& last == ' ' ==> fitted == forms.1
            &&& last == 'ㄹ' && rule_of(kind) == TransTossiWhen::RiEulAndBlank ==> fitted == forms.1
            &&& last == 'ㄹ' && rule_of(kind) == TransTossiWhen::Blank ==> fitted == forms.2
            &&& last != 'N' && last != ' ' && last != 'ㄹ' ==> fitted == forms.2
        }),
{
}

/// The three forms of the particle `kind`.
pub fn variants_of(kind: TossiKind) -> (res: (&'static str, &'static str, &'static str))
    ensures
        spelling(res) == forms_of(kind),
{
    match kind {
        TossiKind::Deun => DEUN,
        TossiKind::Deunka => DEUNKA,
        TossiKind::Deunji => DEUNJI,
        TossiKind::Eul => EUL,
        TossiKind::Ida => IDA,
        TossiKind::Ka => KA,
        TossiKind::Ko => KO,
        TossiKind::Myeo => MYEO,
        TossiKind::Na => NA,
        TossiKind::Nama => NAMA,
        TossiKind::Neun => NEUN,
        TossiKind::Ni => NI,
        TossiKind::Rado => RADO,
        TossiKind::Ran => RAN,
        TossiKind::Rang => RANG,
        TossiKind::Raya => RAYA,
        TossiKind::Yamalro => YAMALRO,
        TossiKind::Yeo => YEO,
        TossiKind::Wa => WA,
        TossiKind::Ro => RO,
        TossiKind::Roseo => ROSEO,
        TossiKind::Rosseo => ROSSEO,
        TossiKind::Robuteo => ROBUTEO,
        TossiKind::Others => NO_FORMS,
    }
}

/// Fits `particle` to `word`: picks the form of the particle that follows
/// the word, by the rule that the particle carries.
pub fn tossi(word: &str, particle: Tossi) -> (res: &str)
    ensures
        res@ == surface(word@, particle.kind, particle.when),
        particle.kind != TossiKind::Others && particle.when == rule_of(particle.kind) ==> {
            let forms = forms_of(particle.kind);
            res@ == forms.0 || res@ == forms.1 || res@ == forms.2
        },
{
    let tossi_variants = variants_of(particle.kind);
    match particle.when {
        TransTossiWhen::Blank => when_blank(word, tossi_variants),
        TransTossiWhen::RiEulAndBlank => when_rieul_and_blank(word, tossi_variants),
        TransTossiWhen::Nothing => " ",
    }
}

/// Picks among `tossi_variants` the form that follows `word`, for a particle
/// that is short after a missing final and after the final ㄹ.
pub fn when_rieul_and_blank<'a>(
    word: &'a str,
    tossi_variants: (&'a str, &'a str, &'a str),
) -> (res: &'a str)
    ensures
        res@ == form_when_rieul_and_blank(word@, spelling(tossi_variants)),
{
    let filtered = guess_final_letter(word);
    if filtered == 'N' {
        tossi_variants.0
    } else if filtered == ' ' || filtered == 'ㄹ' {
        tossi_variants.1
    } else {
        tossi_variants.2
    }
}

/// Picks among `tossi_variants` the form that follows `word`, for a particle
/// that is short after a missing final only.
pub fn when_blank<'a>(
    word: &'a str,
    tossi_variants: (&'a str, &'a str, &'a str),
) -> (res: &'a str)
    ensures
        res@ == form_when_blank(word@, spelling(tossi_variants)),
{
    let filtered = guess_final_letter(word);
    if filtered == 'N' {
        tossi_variants.0
    } else if filtered == ' ' {
        tossi_variants.1
    } else {
        tossi_variants.2
    }
}

} // verus!
