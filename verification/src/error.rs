//! What can be wrong with a word or a particle.

use vstd::prelude::*;

verus! {

/// Why a word and a particle are turned away.
#[derive(Clone, Copy, Debug, PartialEq, Eq, Structural)]
pub enum InvalidValue {
    /// The particle is not one of the listed particles.
    InvalidTossi,
    /// The word is too long.
    LimitLength,
}

/// What is said of a particle that is not listed.
pub const INVALID_TOSSI_MESSAGE: &'static str = "This value is not correct tossi";

/// What is said of a word that is too long.
pub const LIMIT_LENGTH_MESSAGE: &'static str =
    "The length has been exceeded. Set the word length to less than 50.";

/// What is said of `error`.
pub open spec fn message_of(error: InvalidValue) -> Seq<char> {
    match error {
        InvalidValue::InvalidTossi => INVALID_TOSSI_MESSAGE@,
        InvalidValue::LimitLength => LIMIT_LENGTH_MESSAGE@,
    }
}

impl InvalidValue {
    /// What is said of this error, for a reader.
    pub fn to_string(&self) -> (res: String)
        ensures
            res@ == message_of(*self),
    {
        match self {
            InvalidValue::InvalidTossi => INVALID_TOSSI_MESSAGE.to_owned(),
            InvalidValue::LimitLength => LIMIT_LENGTH_MESSAGE.to_owned(),
        }
    }
}

/// An error with what is said of it.
#[derive(Debug, PartialEq)]
pub struct ValueError {
    error: InvalidValue,
    description: String,
}

impl ValueError {
    /// What is said of an error is always what is said of its reason.
    #[verifier::type_invariant]
    spec fn described(self) -> bool {
        self.description@ == message_of(self.error)
    }

    /// Why the value was turned away.
    pub closed spec fn reason(self) -> InvalidValue {
        self.error
    }

    /// The error for `error`, with what is said of it.
    pub fn new(error: InvalidValue) -> (res: Self)
        ensures
            res.reason() == error,
    {
        ValueError { description: error.to_string(), error }
    }

    /// Why the value was turned away.
    pub fn error(&self) -> (res: InvalidValue)
        ensures
            res == self.reason(),
    {
        self.error
    }

    /// What is said of the error.
    pub fn description(&self) -> (res: &str)
        ensures
            res@ == message_of(self.reason()),
    {
        proof {
            use_type_invariant(self);
        }
        self.description.as_str()
    }

    /// What is said of the error, for a reader.
    pub fn to_string(&self) -> (res: String)
        ensures
            res@ == message_of(self.reason()),
    {
        self.error.to_string()
    }
}

} // verus!
