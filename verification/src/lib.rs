//! Korean postpositional particles, fitted to the word they follow.
//!
//! Many particles have two forms, and which one is written goes by the last
//! sound of the word in front: 집 takes 으로, 나무 takes 로. Given a word and
//! a particle in any of its forms, [`resolve_particle`] picks the form that
//! follows the word, and [`combine`] writes it behind the word. Both take
//! any word and any particle: a particle that is not known is written as it
//! came, and after a word whose end cannot be told, such as a word in another
//! script, a particle is written in the form that shows both readings, as in
//! (으)로.
//!
//! [`postfix`] and [`transform`] do the same for callers who want a word
//! and a particle checked first, and an error where the check fails.

pub mod error;
pub mod filter;
pub mod hangeul;
pub mod identifier;
pub mod number;
pub mod text;
pub mod transfer;
pub mod validator;

pub use error::{InvalidValue, ValueError};
pub use filter::{filter_only_significant, find_last_letter, guess_final_letter};
pub use hangeul::{is_hangeul, join_phonemes, split_phonemes};
pub use identifier::{Tossi, TossiKind, TransTossiWhen};
pub use number::{change_num_to_hangeul, is_digits};
pub use validator::validate;

use crate::filter::significant;
use crate::identifier::{kind_of, rule_of};
use crate::transfer::{forms_of, lemma_surface_is_a_form, surface, tossi};
use crate::validator::{is_listed, too_long, verdict};
use vstd::prelude::*;
use vstd::string::*;

verus! {

/// The form of `particle` that follows `word`. A particle that is not known
/// to change is left as it is written.
pub open spec fn resolved(word: Seq<char>, particle: Seq<char>) -> Seq<char> {
    let kind = kind_of(significant(particle));
    if kind == TossiKind::Others {
        particle
    } else {
        surface(word, kind, rule_of(kind))
    }
}

/// Whatever the word and the particle, what follows the word is the
/// particle as it was written or one of the three forms of the particle.
pub proof fn lemma_resolved_is_particle_or_form(word: Seq<char>, particle: Seq<char>)
    ensures
        ({
            let kind = kind_of(significant(particle));
            let forms = forms_of(kind);
            let fitted = resolved(word, particle);
            if kind == TossiKind::Others {
                fitted == particle
            } else {
                fitted == forms.0 || fitted == forms.1 || fitted == forms.2
            }
        }),
{
    let kind = kind_of(significant(particle));
    if kind != TossiKind::Others {
        lemma_surface_is_a_form(word, kind);
    }
}

/// A listed particle is taken with every word that is short enough, and is
/// then fitted like any other: written as it came where it does not change,
/// else in one of its three forms.
pub proof fn lemma_listed_particle_is_fitted(word: Seq<char>, tossi: Seq<char>)
    requires
        is_listed(tossi),
        !too_long(word.len()),
    ensures
        verdict(word, tossi) is Ok,
        ({
            let kind = kind_of(significant(tossi));
            let forms = forms_of(kind);
            let fitted = resolved(word, tossi);
            if kind == TossiKind::Others {
                fitted == tossi
            } else {
                fitted == forms.0 || fitted == forms.1 || fitted == forms.2
            }
        }),
{
    lemma_resolved_is_particle_or_form(word, tossi);
}

/// Picks the form of `particle` that follows `word`.
pub fn resolve_particle(word: &str, particle: &str) -> (res: String)
    ensures
        res@ == resolved(word@, particle@),
{
    let told = Tossi::new(particle);
    match told.kind {
        TossiKind::Others => particle.to_owned(),
        _ => tossi(word, told).to_owned(),
    }
}

/// Writes behind `word` the form of `particle` that follows it.
pub fn combine(word: &str, particle: &str) -> (res: String)
    ensures
        res@ == word@ + resolved(word@, particle@),
{
    let fitted = resolve_particle(word, particle);
    word.to_owned().concat(fitted.as_str())
}

/// Checks `word` and `tossi`, and hands back the word and the form of the
/// particle that follows it, or the reason why the two were turned away.
pub fn transform(word: &str, tossi: &str) -> (res: Result<(String, String), ValueError>)
    ensures
        match verdict(word@, tossi@) {
            Ok(_) => res is Ok && res->Ok_0.0@ == word@ && res->Ok_0.1@ == resolved(word@, tossi@),
            Err(reason) => res is Err && res->Err_0.reason() == reason,
        },
{
    match validate(word, tossi) {
        Err(reason) => Err(ValueError::new(reason)),
        Ok(()) => Ok((word.to_owned(), resolve_particle(word, tossi))),
    }
}

/// Checks `word` and `tossi`, and writes behind the word the form of the
/// particle that follows it, or hands back the reason why the two were
/// turned away.
pub fn postfix(word: &str, tossi: &str) -> (res: Result<String, ValueError>)
    ensures
        match verdict(word@, tossi@) {
            Ok(_) => res is Ok && res->Ok_0@ == word@ + resolved(word@, tossi@),
            Err(reason) => res is Err && res->Err_0.reason() == reason,
        },
{
    match validate(word, tossi) {
        Err(reason) => Err(ValueError::new(reason)),
        Ok(()) => Ok(combine(word, tossi)),
    }
}

} // verus!
