//! The calls that a box asks of the crypto engine, and what becomes of the
//! engine's answers.
//!
//! No cipher runs here. A box says which primitive of the engine is to be
//! called and with which parameters; whoever holds the engine makes the call
//! and hands the answer back to be judged.

use vstd::prelude::*;

verus! {

/// The engine's code for text that is not hexadecimal.
pub const INVALID_HEX: u32 = 2;

/// The engine's code for text that is not base64.
pub const INVALID_BASE64: u32 = 3;

/// The engine's code for a public key that it cannot read.
pub const INVALID_PUBLIC_KEY: u32 = 100;

/// The engine's code for a secret key that it cannot read.
pub const INVALID_SECRET_KEY: u32 = 101;

/// The engine's code for a key that it cannot read.
pub const INVALID_KEY: u32 = 102;

/// The engine's code for a key or nonce of the wrong length.
pub const INVALID_KEY_SIZE: u32 = 109;

/// The engine's code for a secret box that it could not seal or open.
pub const NACL_SECRET_BOX_FAILED: u32 = 110;

/// The engine's code for a public-key box that it could not seal or open.
pub const NACL_BOX_FAILED: u32 = 111;

/// The engine's code for a nonce of the wrong length.
pub const INVALID_NONCE_SIZE: u32 = 134;

/// A refusal of the engine: its code and its words.
#[derive(Clone, Debug)]
pub struct EngineFailure {
    pub code: u32,
    pub message: String,
}

/// An `EngineFailure` as plain values.
pub struct EngineFailureView {
    pub code: u32,
    pub message: Seq<char>,
}

impl View for EngineFailure {
    type V = EngineFailureView;

    open spec fn view(&self) -> EngineFailureView {
        EngineFailureView { code: self.code, message: self.message@ }
    }
}

/// One call of a primitive of the engine, with its parameters.
#[derive(Clone, Debug)]
pub enum EngineCall {
    /// Seal `decrypted` under a shared key.
    NaclSecretBox { decrypted: String, nonce: String, key: String },
    /// Open `encrypted` under a shared key, verifying it.
    NaclSecretBoxOpen { encrypted: String, nonce: String, key: String },
    /// Seal `decrypted` for the holder of `their_public`.
    NaclBox { decrypted: String, nonce: String, their_public: String, secret: String },
    /// Open `encrypted` that the holder of `their_public` sealed, verifying it.
    NaclBoxOpen { encrypted: String, nonce: String, their_public: String, secret: String },
    /// Run the stream cipher over `data`; the same call encrypts and decrypts.
    ChaCha20 { data: String, key: String, nonce: String },
}

/// An `EngineCall` as plain values.
pub enum EngineCallView {
    NaclSecretBox { decrypted: Seq<char>, nonce: Seq<char>, key: Seq<char> },
    NaclSecretBoxOpen { encrypted: Seq<char>, nonce: Seq<char>, key: Seq<char> },
    NaclBox { decrypted: Seq<char>, nonce: Seq<char>, their_public: Seq<char>, secret: Seq<char> },
    NaclBoxOpen {
        encrypted: Seq<char>,
        nonce: Seq<char>,
        their_public: Seq<char>,
        secret: Seq<char>,
    },
    ChaCha20 { data: Seq<char>, key: Seq<char>, nonce: Seq<char> },
}

impl View for EngineCall {
    type V = EngineCallView;

    open spec fn view(&self) -> EngineCallView {
        match *self {
            EngineCall::NaclSecretBox { decrypted, nonce, key } => EngineCallView::NaclSecretBox {
                decrypted: decrypted@,
                nonce: nonce@,
                key: key@,
            },
            EngineCall::NaclSecretBoxOpen {
                encrypted,
                nonce,
                key,
            } => EngineCallView::NaclSecretBoxOpen {
                encrypted: encrypted@,
                nonce: nonce@,
                key: key@,
            },
            EngineCall::NaclBox { decrypted, nonce, their_public, secret } => EngineCallView::NaclBox {
                decrypted: decrypted@,
                nonce: nonce@,
                their_public: their_public@,
                secret: secret@,
            },
            EngineCall::NaclBoxOpen {
                encrypted,
                nonce,
                their_public,
                secret,
            } => EngineCallView::NaclBoxOpen {
                encrypted: encrypted@,
                nonce: nonce@,
                their_public: their_public@,
                secret: secret@,
            },
            EngineCall::ChaCha20 { data, key, nonce } => EngineCallView::ChaCha20 {
                data: data@,
                key: key@,
                nonce: nonce@,
            },
        }
    }
}

impl EngineCallView {
    /// The call opens a sealed text, and so verifies it.
    pub open spec fn verifies(self) -> bool {
        self is NaclSecretBoxOpen || self is NaclBoxOpen
    }
}

/// Why a cipher operation failed.
#[derive(Clone, Copy, Debug, PartialEq, Eq, Structural)]
pub enum CipherFailureKind {
    /// A key, a nonce or the text was malformed or of the wrong length.
    Format,
    /// The sealed text did not verify under the key and nonce.
    Authentication,
    /// The engine failed otherwise.
    Engine,
}

/// The failure of an encryption or a decryption.
#[derive(Clone, Debug)]
pub struct CipherError {
    pub kind: CipherFailureKind,
    /// The engine's code.
    pub code: u32,
    /// The engine's words.
    pub message: String,
}

/// A `CipherError` as plain values.
pub struct CipherErrorView {
    pub kind: CipherFailureKind,
    pub code: u32,
    pub message: Seq<char>,
}

impl View for CipherError {
    type V = CipherErrorView;

    open spec fn view(&self) -> CipherErrorView {
        CipherErrorView { kind: self.kind, code: self.code, message: self.message@ }
    }
}

/// The engine gives `code` for malformed input.
pub open spec fn is_format_code(code: u32) -> bool {
    code == INVALID_HEX || code == INVALID_BASE64 || code == INVALID_PUBLIC_KEY || code
        == INVALID_SECRET_KEY || code == INVALID_KEY || code == INVALID_KEY_SIZE || code
        == INVALID_NONCE_SIZE
}

/// The engine gives `code` where a box could not be sealed or opened.
pub open spec fn is_box_code(code: u32) -> bool {
    code == NACL_SECRET_BOX_FAILED || code == NACL_BOX_FAILED
}

/// What a refusal with `code` means, for a call that verifies a sealed text
/// and for one that does not. Only the opening of a box can fail to
/// authenticate.
pub open spec fn failure_kind(verifies: bool, code: u32) -> CipherFailureKind {
    if is_format_code(code) {
        CipherFailureKind::Format
    } else if verifies && is_box_code(code) {
        CipherFailureKind::Authentication
    } else {
        CipherFailureKind::Engine
    }
}

/// What a call returns to its caller when the engine has answered `reply`.
pub open spec fn settled(
    call: EngineCallView,
    reply: Result<Seq<char>, EngineFailureView>,
) -> Result<Seq<char>, CipherErrorView> {
    match reply {
        Ok(text) => Ok(text),
        Err(f) => Err(
            CipherErrorView {
                kind: failure_kind(call.verifies(), f.code),
                code: f.code,
                message: f.message,
            },
        ),
    }
}

/// The engine's answer to a call, as plain values.
pub open spec fn reply_view(reply: Result<String, EngineFailure>) -> Result<
    Seq<char>,
    EngineFailureView,
> {
    match reply {
        Ok(text) => Ok(text@),
        Err(f) => Err(f@),
    }
}

/// The outcome of a cipher operation, as plain values.
pub open spec fn outcome_view(outcome: Result<String, CipherError>) -> Result<
    Seq<char>,
    CipherErrorView,
> {
    match outcome {
        Ok(text) => Ok(text@),
        Err(e) => Err(e@),
    }
}

/// Judges a refusal of the engine by its code.
pub fn classify(verifies: bool, code: u32) -> (kind: CipherFailureKind)
    ensures
        kind == failure_kind(verifies, code),
{
    if code == INVALID_HEX || code == INVALID_BASE64 || code == INVALID_PUBLIC_KEY || code
        == INVALID_SECRET_KEY || code == INVALID_KEY || code == INVALID_KEY_SIZE || code
        == INVALID_NONCE_SIZE {
        CipherFailureKind::Format
    } else if verifies && (code == NACL_SECRET_BOX_FAILED || code == NACL_BOX_FAILED) {
        CipherFailureKind::Authentication
    } else {
        CipherFailureKind::Engine
    }
}

impl EngineCall {
    /// Tells whether the call opens a sealed text.
    pub fn verifies(&self) -> (r: bool)
        ensures
            r == self@.verifies(),
    {
        match self {
            EngineCall::NaclSecretBoxOpen { .. } => true,
            EngineCall::NaclBoxOpen { .. } => true,
            _ => false,
        }
    }

    /// Settles the call once the engine has answered: the engine's text is the
    /// result, and a refusal becomes a failure of the kind that its code tells,
    /// with the engine's code and words kept.
    pub fn finish(&self, reply: Result<String, EngineFailure>) -> (r: Result<String, CipherError>)
        ensures
            outcome_view(r) == settled(self@, reply_view(reply)),
    {
        match reply {
            Ok(text) => Ok(text),
            Err(f) => {
                let kind = classify(self.verifies(), f.code);
                Err(CipherError { kind, code: f.code, message: f.message })
            },
        }
    }
}

impl EngineCallView {
    /// The call that undoes this one on `data`, with the same key material:
    /// to open for to seal, to seal for to open, and the stream cipher for
    /// itself.
    pub open spec fn counterpart(self, data: Seq<char>) -> EngineCallView {
        match self {
            EngineCallView::NaclSecretBox { nonce, key, .. } => EngineCallView::NaclSecretBoxOpen {
                encrypted: data,
                nonce,
                key,
            },
            EngineCallView::NaclSecretBoxOpen { nonce, key, .. } => EngineCallView::NaclSecretBox {
                decrypted: data,
                nonce,
                key,
            },
            EngineCallView::NaclBox { nonce, their_public, secret, .. } => EngineCallView::NaclBoxOpen {
                encrypted: data,
                nonce,
                their_public,
                secret,
            },
            EngineCallView::NaclBoxOpen { nonce, their_public, secret, .. } => EngineCallView::NaclBox {
                decrypted: data,
                nonce,
                their_public,
                secret,
            },
            EngineCallView::ChaCha20 { key, nonce, .. } => EngineCallView::ChaCha20 {
                data,
                key,
                nonce,
            },
        }
    }
}

/// A call gives text exactly where the engine gave text, and then the
/// engine's text: a refusal never turns into text. A refusal is a failure to
/// authenticate exactly where an opening call was refused with a box code,
/// and a malformed input exactly where the code says so; no refusal is both.
pub proof fn lemma_settled(call: EngineCallView, reply: Result<Seq<char>, EngineFailureView>)
    ensures
        settled(call, reply) is Ok <==> reply is Ok,
        reply is Ok ==> settled(call, reply) == Ok::<Seq<char>, CipherErrorView>(reply->Ok_0),
        reply is Err ==> {
            let e = settled(call, reply)->Err_0;
            let f = reply->Err_0;
            &&& e.code == f.code
            &&& e.message == f.message
            &&& e.kind == CipherFailureKind::Authentication <==> (call.verifies() && is_box_code(
                f.code,
            ))
            &&& e.kind == CipherFailureKind::Format <==> is_format_code(f.code)
        },
{
}

} // verus!
