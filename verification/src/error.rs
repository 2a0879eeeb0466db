//! Why a box could not be created.

use vstd::prelude::*;
use crate::engine::{EngineFailure, EngineFailureView};

verus! {

/// The key could not be had from what the operator entered.
#[derive(Clone, Debug)]
pub enum KeyResolutionFailure {
    /// The operator entered nothing, or white space alone.
    EmptySecret,
    /// The loader refused the entry, in these words. They do not hold the
    /// entry.
    Rejected(String),
    /// The loader refused the entry in words that held the entry itself, and
    /// are withheld for that.
    Undisclosed,
    /// The loader gave a secret key that is not one to sixty-four hexadecimal
    /// digits.
    MalformedKey,
}

/// The box was not registered.
#[derive(Clone, Debug)]
pub enum RegistrationFailure {
    /// The nonce is not hexadecimal of the cipher's width.
    BadNonce,
    /// The engine answered with the handle that names no box.
    NoHandle,
    /// The engine refused the box.
    Refused(EngineFailure),
}

/// Why a box could not be created.
#[derive(Clone, Debug)]
pub enum CreateError {
    /// The cipher between two parties was asked for without the other party's
    /// public key.
    MissingCounterpartyKey,
    KeyResolution(KeyResolutionFailure),
    Registration(RegistrationFailure),
}

/// A `KeyResolutionFailure` as plain values.
pub enum KeyResolutionFailureView {
    EmptySecret,
    Rejected(Seq<char>),
    Undisclosed,
    MalformedKey,
}

/// A `RegistrationFailure` as plain values.
pub enum RegistrationFailureView {
    BadNonce,
    NoHandle,
    Refused(EngineFailureView),
}

/// A `CreateError` as plain values.
pub enum CreateErrorView {
    MissingCounterpartyKey,
    KeyResolution(KeyResolutionFailureView),
    Registration(RegistrationFailureView),
}

impl View for KeyResolutionFailure {
    type V = KeyResolutionFailureView;

    open spec fn view(&self) -> KeyResolutionFailureView {
        match *self {
            KeyResolutionFailure::EmptySecret => KeyResolutionFailureView::EmptySecret,
            KeyResolutionFailure::Rejected(words) => KeyResolutionFailureView::Rejected(words@),
            KeyResolutionFailure::Undisclosed => KeyResolutionFailureView::Undisclosed,
            KeyResolutionFailure::MalformedKey => KeyResolutionFailureView::MalformedKey,
        }
    }
}

impl View for RegistrationFailure {
    type V = RegistrationFailureView;

    open spec fn view(&self) -> RegistrationFailureView {
        match *self {
            RegistrationFailure::BadNonce => RegistrationFailureView::BadNonce,
            RegistrationFailure::NoHandle => RegistrationFailureView::NoHandle,
            RegistrationFailure::Refused(f) => RegistrationFailureView::Refused(f@),
        }
    }
}

impl View for CreateError {
    type V = CreateErrorView;

    open spec fn view(&self) -> CreateErrorView {
        match *self {
            CreateError::MissingCounterpartyKey => CreateErrorView::MissingCounterpartyKey,
            CreateError::KeyResolution(f) => CreateErrorView::KeyResolution(f@),
            CreateError::Registration(f) => CreateErrorView::Registration(f@),
        }
    }
}

impl CreateErrorView {
    /// The failure in words. What the loader or the engine said is passed on
    /// as it was said.
    pub open spec fn message(self) -> Seq<char> {
        match self {
            CreateErrorView::MissingCounterpartyKey => "the public key of the other party is missing"@,
            CreateErrorView::KeyResolution(
                KeyResolutionFailureView::EmptySecret,
            ) => "no seed phrase or keypair file was entered"@,
            CreateErrorView::KeyResolution(KeyResolutionFailureView::Rejected(words)) => words,
            CreateErrorView::KeyResolution(
                KeyResolutionFailureView::Undisclosed,
            ) => "the seed phrase or keypair file could not be resolved"@,
            CreateErrorView::KeyResolution(
                KeyResolutionFailureView::MalformedKey,
            ) => "the secret key is not hexadecimal of at most 64 digits"@,
            CreateErrorView::Registration(
                RegistrationFailureView::BadNonce,
            ) => "the nonce is not hexadecimal of the width that the cipher takes"@,
            CreateErrorView::Registration(
                RegistrationFailureView::NoHandle,
            ) => "the engine gave no handle for the box"@,
            CreateErrorView::Registration(RegistrationFailureView::Refused(f)) => f.message,
        }
    }
}

impl CreateError {
    /// Says the failure in words.
    pub fn message(&self) -> (r: String)
        ensures
            r@ == self@.message(),
    {
        match self {
            CreateError::MissingCounterpartyKey => String::from_str(
                "the public key of the other party is missing",
            ),
            CreateError::KeyResolution(KeyResolutionFailure::EmptySecret) => String::from_str(
                "no seed phrase or keypair file was entered",
            ),
            CreateError::KeyResolution(KeyResolutionFailure::Rejected(words)) => words.clone(),
            CreateError::KeyResolution(KeyResolutionFailure::Undisclosed) => String::from_str(
                "the seed phrase or keypair file could not be resolved",
            ),
            CreateError::KeyResolution(KeyResolutionFailure::MalformedKey) => String::from_str(
                "the secret key is not hexadecimal of at most 64 digits",
            ),
            CreateError::Registration(RegistrationFailure::BadNonce) => String::from_str(
                "the nonce is not hexadecimal of the width that the cipher takes",
            ),
            CreateError::Registration(RegistrationFailure::NoHandle) => String::from_str(
                "the engine gave no handle for the box",
            ),
            CreateError::Registration(RegistrationFailure::Refused(f)) => f.message.clone(),
        }
    }
}

} // verus!
