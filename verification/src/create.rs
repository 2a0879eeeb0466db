//! The making of a box, step by step.
//!
//! To make a box the operator is asked for a secret, the secret is resolved
//! to a key, and the box is registered with the engine. None of the three is
//! done here. `TerminalEncryptionBox::new` and `Creation::step` decide what
//! is to be done next: each takes what has happened and gives the next
//! action, and the caller does what the action says and comes back with the
//! event that it led to.

use vstd::prelude::*;
use crate::boxes::{built, CipherBox, CipherBoxView};
use crate::engine::{EngineFailure, EngineFailureView};
use crate::error::{
    CreateError,
    CreateErrorView,
    KeyResolutionFailure,
    KeyResolutionFailureView,
    RegistrationFailure,
    RegistrationFailureView,
};
use crate::handle::{EncryptionBoxHandle, TerminalEncryptionBox};
use crate::material::{
    check_nonce,
    is_nonce,
    is_secret,
    normalize_secret,
    normalized,
    EncryptionBoxType,
};
use crate::text::{blank, contains, is_blank, occurs_in, trim, trimmed};

verus! {

/// What a box is to be made of, but for the secret key.
#[derive(Clone, Debug)]
pub struct ParamsOfTerminalEncryptionBox {
    pub box_type: EncryptionBoxType,
    /// The other party's public key in hexadecimal digits. Only the cipher
    /// between two parties takes it; empty where none is given.
    pub their_pubkey: String,
    /// The nonce in hexadecimal digits.
    pub nonce: String,
}

/// A `ParamsOfTerminalEncryptionBox` as plain values.
pub struct ParamsView {
    pub box_type: EncryptionBoxType,
    pub their_pubkey: Seq<char>,
    pub nonce: Seq<char>,
}

impl View for ParamsOfTerminalEncryptionBox {
    type V = ParamsView;

    open spec fn view(&self) -> ParamsView {
        ParamsView {
            box_type: self.box_type,
            their_pubkey: self.their_pubkey@,
            nonce: self.nonce@,
        }
    }
}

impl ParamsView {
    /// The cipher between two parties is asked for, and the other party's
    /// key is not given.
    pub open spec fn lacks_counterparty(self) -> bool {
        self.box_type == EncryptionBoxType::NaCl && self.their_pubkey.len() == 0
    }
}

/// What the operator is asked.
pub const PROMPT: &'static str = "enter seed phrase or path to keypair file";

/// What has happened since the last action.
#[derive(Clone, Debug)]
pub enum CreateEvent {
    /// The operator has entered this line.
    SecretEntered(String),
    /// The loader has resolved the entry to this secret key.
    KeyLoaded(String),
    /// The loader has refused the entry, in these words.
    KeyRejected(String),
    /// The engine has registered the box under this handle.
    Registered(EncryptionBoxHandle),
    /// The engine has refused the box.
    RegistrationRefused(EngineFailure),
    /// The caller has given the creation up.
    Cancelled,
}

/// A `CreateEvent` as plain values.
pub enum CreateEventView {
    SecretEntered(Seq<char>),
    KeyLoaded(Seq<char>),
    KeyRejected(Seq<char>),
    Registered(EncryptionBoxHandle),
    RegistrationRefused(EngineFailureView),
    Cancelled,
}

impl View for CreateEvent {
    type V = CreateEventView;

    open spec fn view(&self) -> CreateEventView {
        match *self {
            CreateEvent::SecretEntered(line) => CreateEventView::SecretEntered(line@),
            CreateEvent::KeyLoaded(secret) => CreateEventView::KeyLoaded(secret@),
            CreateEvent::KeyRejected(words) => CreateEventView::KeyRejected(words@),
            CreateEvent::Registered(handle) => CreateEventView::Registered(handle),
            CreateEvent::RegistrationRefused(f) => CreateEventView::RegistrationRefused(f@),
            CreateEvent::Cancelled => CreateEventView::Cancelled,
        }
    }
}

/// What the caller is to do next.
#[derive(Debug)]
pub enum CreateAction {
    /// Take the terminal for the length of one prompt, ask the operator
    /// `PROMPT`, and come back with `SecretEntered`.
    Prompt,
    /// Resolve this entry to a key pair, and come back with `KeyLoaded` or
    /// `KeyRejected`.
    LoadKeypair(String),
    /// Register this box with the engine, and come back with `Registered` or
    /// `RegistrationRefused`.
    Register(CipherBox),
    /// The box is made: this wrapper owns its registration.
    Deliver(TerminalEncryptionBox),
    /// The box cannot be made.
    Fail(CreateError),
    /// Deregister this handle: its box was registered for a caller that has
    /// gone.
    Deregister(EncryptionBoxHandle),
    /// Nothing is to be done.
    Nothing,
}

/// A `CreateAction` as plain values.
pub enum CreateActionView {
    Prompt,
    LoadKeypair(Seq<char>),
    Register(CipherBoxView),
    Deliver(EncryptionBoxHandle),
    Fail(CreateErrorView),
    Deregister(EncryptionBoxHandle),
    Nothing,
}

impl View for CreateAction {
    type V = CreateActionView;

    open spec fn view(&self) -> CreateActionView {
        match *self {
            CreateAction::Prompt => CreateActionView::Prompt,
            CreateAction::LoadKeypair(entry) => CreateActionView::LoadKeypair(entry@),
            CreateAction::Register(b) => CreateActionView::Register(b@),
            CreateAction::Deliver(wrapper) => CreateActionView::Deliver(wrapper@),
            CreateAction::Fail(e) => CreateActionView::Fail(e@),
            CreateAction::Deregister(handle) => CreateActionView::Deregister(handle),
            CreateAction::Nothing => CreateActionView::Nothing,
        }
    }
}

/// How far the making of a box has come.
#[derive(Debug)]
pub enum Creation {
    /// The operator has been asked and has not answered yet.
    AwaitingSecret(ParamsOfTerminalEncryptionBox),
    /// The operator's entry is with the loader.
    ResolvingKey { params: ParamsOfTerminalEncryptionBox, entry: String },
    /// The box is with the engine.
    Registering,
    /// The creation has ended: the box was delivered, or it failed.
    Done,
    /// The caller has given up. `registering` says that the engine may still
    /// answer a registration.
    Abandoned { registering: bool },
}

/// A `Creation` as plain values.
pub enum CreationView {
    AwaitingSecret(ParamsView),
    ResolvingKey { params: ParamsView, entry: Seq<char> },
    Registering,
    Done,
    Abandoned { registering: bool },
}

impl View for Creation {
    type V = CreationView;

    open spec fn view(&self) -> CreationView {
        match *self {
            Creation::AwaitingSecret(params) => CreationView::AwaitingSecret(params@),
            Creation::ResolvingKey { params, entry } => CreationView::ResolvingKey {
                params: params@,
                entry: entry@,
            },
            Creation::Registering => CreationView::Registering,
            Creation::Done => CreationView::Done,
            Creation::Abandoned { registering } => CreationView::Abandoned { registering },
        }
    }
}

/// How a creation begins. The cipher between two parties is refused at once
/// where the other party's key is missing; else the operator is asked.
pub open spec fn begun(params: ParamsView) -> (CreationView, CreateActionView) {
    if params.lacks_counterparty() {
        (CreationView::Done, CreateActionView::Fail(CreateErrorView::MissingCounterpartyKey))
    } else {
        (CreationView::AwaitingSecret(params), CreateActionView::Prompt)
    }
}

/// What follows the operator's entry: a blank one ends the creation, any
/// other goes to the loader as it was entered.
pub open spec fn after_entry(params: ParamsView, line: Seq<char>) -> (
    CreationView,
    CreateActionView,
) {
    if is_blank(line) {
        (
            CreationView::Done,
            CreateActionView::Fail(
                CreateErrorView::KeyResolution(KeyResolutionFailureView::EmptySecret),
            ),
        )
    } else {
        (CreationView::ResolvingKey { params, entry: line }, CreateActionView::LoadKeypair(line))
    }
}

/// What the caller learns of a refusal of the loader: the loader's words,
/// unless they hold what the operator entered.
pub open spec fn refusal(entry: Seq<char>, words: Seq<char>) -> KeyResolutionFailureView {
    if occurs_in(words, trimmed(entry)) {
        KeyResolutionFailureView::Undisclosed
    } else {
        KeyResolutionFailureView::Rejected(words)
    }
}

/// What follows a resolved key. The key must read as a secret key and the
/// nonce must fit the cipher, in this order; then the box is built over the
/// key in its full width and goes to the engine.
pub open spec fn after_key(params: ParamsView, secret: Seq<char>) -> (
    CreationView,
    CreateActionView,
) {
    if !is_secret(secret) {
        (
            CreationView::Done,
            CreateActionView::Fail(
                CreateErrorView::KeyResolution(KeyResolutionFailureView::MalformedKey),
            ),
        )
    } else if !is_nonce(params.box_type, params.nonce) {
        (
            CreationView::Done,
            CreateActionView::Fail(CreateErrorView::Registration(RegistrationFailureView::BadNonce)),
        )
    } else {
        (
            CreationView::Registering,
            CreateActionView::Register(
                built(params.box_type, normalized(secret), params.nonce, params.their_pubkey),
            ),
        )
    }
}

/// What follows the engine's confirmation while the caller waits for it.
pub open spec fn after_registration(handle: EncryptionBoxHandle) -> (
    CreationView,
    CreateActionView,
) {
    if handle.names_box() {
        (CreationView::Done, CreateActionView::Deliver(handle))
    } else {
        (
            CreationView::Done,
            CreateActionView::Fail(CreateErrorView::Registration(RegistrationFailureView::NoHandle)),
        )
    }
}

/// What follows the engine's confirmation once the caller has gone: the
/// box that nobody owns is deregistered.
pub open spec fn after_late_registration(handle: EncryptionBoxHandle) -> (
    CreationView,
    CreateActionView,
) {
    if handle.names_box() {
        (CreationView::Abandoned { registering: false }, CreateActionView::Deregister(handle))
    } else {
        (CreationView::Abandoned { registering: false }, CreateActionView::Nothing)
    }
}

/// The state that a creation is in once the caller has given it up.
pub open spec fn abandoned(state: CreationView) -> CreationView {
    match state {
        CreationView::AwaitingSecret(_) => CreationView::Abandoned { registering: false },
        CreationView::ResolvingKey { .. } => CreationView::Abandoned { registering: false },
        CreationView::Registering => CreationView::Abandoned { registering: true },
        CreationView::Done => CreationView::Done,
        CreationView::Abandoned { registering } => CreationView::Abandoned { registering },
    }
}

/// One step of a creation: the state and the action that follow `event` in
/// `state`. An event that the state does not wait for changes nothing and
/// asks for nothing.
pub open spec fn stepped(state: CreationView, event: CreateEventView) -> (
    CreationView,
    CreateActionView,
) {
    match (state, event) {
        (_, CreateEventView::Cancelled) => (abandoned(state), CreateActionView::Nothing),
        (CreationView::AwaitingSecret(params), CreateEventView::SecretEntered(line)) => after_entry(
            params,
            line,
        ),
        (CreationView::ResolvingKey { params, entry }, CreateEventView::KeyLoaded(secret)) => after_key(
            params,
            secret,
        ),
        (CreationView::ResolvingKey { params, entry }, CreateEventView::KeyRejected(words)) => (
            CreationView::Done,
            CreateActionView::Fail(CreateErrorView::KeyResolution(refusal(entry, words))),
        ),
        (CreationView::Registering, CreateEventView::Registered(handle)) => after_registration(
            handle,
        ),
        (CreationView::Registering, CreateEventView::RegistrationRefused(f)) => (
            CreationView::Done,
            CreateActionView::Fail(
                CreateErrorView::Registration(RegistrationFailureView::Refused(f)),
            ),
        ),
        (
            CreationView::Abandoned { registering: true },
            CreateEventView::Registered(handle),
        ) => after_late_registration(handle),
        (
            CreationView::Abandoned { registering: true },
            CreateEventView::RegistrationRefused(_),
        ) => (CreationView::Abandoned { registering: false }, CreateActionView::Nothing),
        _ => (state, CreateActionView::Nothing),
    }
}

impl TerminalEncryptionBox {
    /// Begins the making of a box. The result is the state of the creation
    /// and the first action: to ask the operator, or to fail at once where
    /// the cipher between two parties is asked for without the other party's
    /// public key.
    pub fn new(params: ParamsOfTerminalEncryptionBox) -> (r: (Creation, CreateAction))
        ensures
            (r.0@, r.1@) == begun(params@),
    {
        let lacks: bool = match params.box_type {
            EncryptionBoxType::NaCl => params.their_pubkey.as_str().unicode_len() == 0,
            _ => false,
        };
        if lacks {
            (Creation::Done, CreateAction::Fail(CreateError::MissingCounterpartyKey))
        } else {
            (Creation::AwaitingSecret(params), CreateAction::Prompt)
        }
    }
}

/// Judges the operator's entry.
fn on_entry(params: ParamsOfTerminalEncryptionBox, line: String) -> (r: (Creation, CreateAction))
    ensures
        (r.0@, r.1@) == after_entry(params@, line@),
{
    if blank(line.as_str()) {
        (
            Creation::Done,
            CreateAction::Fail(CreateError::KeyResolution(KeyResolutionFailure::EmptySecret)),
        )
    } else {
        let entry = line.clone();
        (Creation::ResolvingKey { params, entry }, CreateAction::LoadKeypair(line))
    }
}

/// Judges a refusal of the loader.
fn on_refusal(entry: &str, words: String) -> (r: KeyResolutionFailure)
    ensures
        r@ == refusal(entry@, words@),
{
    if contains(words.as_str(), trim(entry)) {
        KeyResolutionFailure::Undisclosed
    } else {
        KeyResolutionFailure::Rejected(words)
    }
}

/// Judges a resolved key, and builds the box.
fn on_key(params: ParamsOfTerminalEncryptionBox, secret: String) -> (r: (Creation, CreateAction))
    ensures
        (r.0@, r.1@) == after_key(params@, secret@),
{
    match normalize_secret(secret.as_str()) {
        None => (
            Creation::Done,
            CreateAction::Fail(CreateError::KeyResolution(KeyResolutionFailure::MalformedKey)),
        ),
        Some(key) => {
            if !check_nonce(params.box_type, params.nonce.as_str()) {
                (
                    Creation::Done,
                    CreateAction::Fail(CreateError::Registration(RegistrationFailure::BadNonce)),
                )
            } else {
                let b = CipherBox::build(params.box_type, key, params.nonce, params.their_pubkey);
                (Creation::Registering, CreateAction::Register(b))
            }
        },
    }
}

/// Judges the engine's confirmation.
fn on_registration(handle: EncryptionBoxHandle) -> (r: (Creation, CreateAction))
    ensures
        (r.0@, r.1@) == after_registration(handle),
{
    if handle.0 != 0 {
        (Creation::Done, CreateAction::Deliver(TerminalEncryptionBox::registered(handle)))
    } else {
        (
            Creation::Done,
            CreateAction::Fail(CreateError::Registration(RegistrationFailure::NoHandle)),
        )
    }
}

/// Judges the engine's confirmation for a caller that has gone.
fn on_late_registration(handle: EncryptionBoxHandle) -> (r: (Creation, CreateAction))
    ensures
        (r.0@, r.1@) == after_late_registration(handle),
{
    if handle.0 != 0 {
        (Creation::Abandoned { registering: false }, CreateAction::Deregister(handle))
    } else {
        (Creation::Abandoned { registering: false }, CreateAction::Nothing)
    }
}

impl Creation {
    /// Gives the creation up.
    fn abandon(self) -> (r: Creation)
        ensures
            r@ == abandoned(self@),
    {
        match self {
            Creation::AwaitingSecret(_) => Creation::Abandoned { registering: false },
            Creation::ResolvingKey { .. } => Creation::Abandoned { registering: false },
            Creation::Registering => Creation::Abandoned { registering: true },
            Creation::Done => Creation::Done,
            Creation::Abandoned { registering } => Creation::Abandoned { registering },
        }
    }

    /// Takes one step: gives the state and the action that follow `event`.
    pub fn step(self, event: CreateEvent) -> (r: (Creation, CreateAction))
        ensures
            (r.0@, r.1@) == stepped(self@, event@),
    {
        match event {
            CreateEvent::Cancelled => (self.abandon(), CreateAction::Nothing),
            CreateEvent::SecretEntered(line) => match self {
                Creation::AwaitingSecret(params) => on_entry(params, line),
                other => (other, CreateAction::Nothing),
            },
            CreateEvent::KeyLoaded(secret) => match self {
                Creation::ResolvingKey { params, entry } => on_key(params, secret),
                other => (other, CreateAction::Nothing),
            },
            CreateEvent::KeyRejected(words) => match self {
                Creation::ResolvingKey { params, entry } => (
                    Creation::Done,
                    CreateAction::Fail(
                        CreateError::KeyResolution(on_refusal(entry.as_str(), words)),
                    ),
                ),
                other => (other, CreateAction::Nothing),
            },
            CreateEvent::Registered(handle) => match self {
                Creation::Registering => on_registration(handle),
                Creation::Abandoned { registering: true } => on_late_registration(handle),
                other => (other, CreateAction::Nothing),
            },
            CreateEvent::RegistrationRefused(f) => match self {
                Creation::Registering => (
                    Creation::Done,
                    CreateAction::Fail(CreateError::Registration(RegistrationFailure::Refused(f))),
                ),
                Creation::Abandoned { registering: true } => (
                    Creation::Abandoned { registering: false },
                    CreateAction::Nothing,
                ),
                other => (other, CreateAction::Nothing),
            },
        }
    }
}

} // verus!
