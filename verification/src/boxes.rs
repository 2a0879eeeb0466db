//! The three boxes and the one capability that they share: to describe
//! themselves, and to say which call of the engine encrypts or decrypts a
//! text with their key material.

use vstd::prelude::*;
use crate::engine::{EngineCall, EngineCallView};
use crate::info::{described, lemma_described_discloses, BoxInfo, BoxInfoView};
use crate::material::{is_full_key, is_nonce, EncryptionBoxType};

verus! {

/// What every box can do.
///
/// A box never runs a cipher itself: `encrypt` and `decrypt` give the call
/// that the engine is to make, which depends on nothing but the box and the
/// text.
pub trait EncryptionBox {
    /// What the box tells about itself.
    spec fn info(&self) -> BoxInfoView;

    /// The call that encrypts `data`.
    spec fn encryption(&self, data: Seq<char>) -> EngineCallView;

    /// The call that decrypts `data`.
    spec fn decryption(&self, data: Seq<char>) -> EngineCallView;

    /// Describes the box.
    fn get_info(&self) -> (r: BoxInfo)
        ensures
            r@ == self.info(),
    ;

    /// Gives the call of the engine that encrypts `data`.
    fn encrypt(&self, data: &str) -> (call: EngineCall)
        ensures
            call@ == self.encryption(data@),
    ;

    /// Gives the call of the engine that decrypts `data`.
    fn decrypt(&self, data: &str) -> (call: EngineCall)
        ensures
            call@ == self.decryption(data@),
    ;
}

/// Authenticated encryption under a shared secret key.
#[derive(Clone, Debug)]
pub struct NaClSecretBox {
    /// 256-bit key: sixty-four hexadecimal digits, zeros in front.
    pub key: String,
    /// 96-bit nonce in hexadecimal digits.
    pub nonce: String,
}

/// The stream cipher.
#[derive(Clone, Debug)]
pub struct ChaChaBox {
    /// 256-bit key.
    pub key: String,
    /// 96-bit nonce in hexadecimal digits.
    pub nonce: String,
}

/// Authenticated encryption between two key pairs.
#[derive(Clone, Debug)]
pub struct NaClBox {
    /// The other party's public key in hexadecimal digits.
    pub their_pubkey: String,
    /// The owner's secret key: sixty-four hexadecimal digits, zeros in front.
    pub secret: String,
    /// Nonce in hexadecimal digits.
    pub nonce: String,
}

impl EncryptionBox for NaClSecretBox {
    open spec fn info(&self) -> BoxInfoView {
        described("NaclSecretBox"@, self.nonce@, None)
    }

    open spec fn encryption(&self, data: Seq<char>) -> EngineCallView {
        EngineCallView::NaclSecretBox { decrypted: data, nonce: self.nonce@, key: self.key@ }
    }

    open spec fn decryption(&self, data: Seq<char>) -> EngineCallView {
        EngineCallView::NaclSecretBoxOpen { encrypted: data, nonce: self.nonce@, key: self.key@ }
    }

    fn get_info(&self) -> (r: BoxInfo) {
        BoxInfo::describe("NaclSecretBox", self.nonce.as_str(), None)
    }

    fn encrypt(&self, data: &str) -> (call: EngineCall) {
        EngineCall::NaclSecretBox {
            decrypted: String::from_str(data),
            nonce: self.nonce.clone(),
            key: self.key.clone(),
        }
    }

    fn decrypt(&self, data: &str) -> (call: EngineCall) {
        EngineCall::NaclSecretBoxOpen {
            encrypted: String::from_str(data),
            nonce: self.nonce.clone(),
            key: self.key.clone(),
        }
    }
}

impl EncryptionBox for ChaChaBox {
    open spec fn info(&self) -> BoxInfoView {
        described("ChaCha20"@, self.nonce@, None)
    }

    open spec fn encryption(&self, data: Seq<char>) -> EngineCallView {
        EngineCallView::ChaCha20 { data, key: self.key@, nonce: self.nonce@ }
    }

    open spec fn decryption(&self, data: Seq<char>) -> EngineCallView {
        EngineCallView::ChaCha20 { data, key: self.key@, nonce: self.nonce@ }
    }

    fn get_info(&self) -> (r: BoxInfo) {
        BoxInfo::describe("ChaCha20", self.nonce.as_str(), None)
    }

    fn encrypt(&self, data: &str) -> (call: EngineCall) {
        EngineCall::ChaCha20 {
            data: String::from_str(data),
            key: self.key.clone(),
            nonce: self.nonce.clone(),
        }
    }

    fn decrypt(&self, data: &str) -> (call: EngineCall) {
        EngineCall::ChaCha20 {
            data: String::from_str(data),
            key: self.key.clone(),
            nonce: self.nonce.clone(),
        }
    }
}

impl EncryptionBox for NaClBox {
    open spec fn info(&self) -> BoxInfoView {
        described("NaclBox"@, self.nonce@, Some(self.their_pubkey@))
    }

    open spec fn encryption(&self, data: Seq<char>) -> EngineCallView {
        EngineCallView::NaclBox {
            decrypted: data,
            nonce: self.nonce@,
            their_public: self.their_pubkey@,
            secret: self.secret@,
        }
    }

    open spec fn decryption(&self, data: Seq<char>) -> EngineCallView {
        EngineCallView::NaclBoxOpen {
            encrypted: data,
            nonce: self.nonce@,
            their_public: self.their_pubkey@,
            secret: self.secret@,
        }
    }

    fn get_info(&self) -> (r: BoxInfo) {
        BoxInfo::describe("NaclBox", self.nonce.as_str(), Some(self.their_pubkey.as_str()))
    }

    fn encrypt(&self, data: &str) -> (call: EngineCall) {
        EngineCall::NaclBox {
            decrypted: String::from_str(data),
            nonce: self.nonce.clone(),
            their_public: self.their_pubkey.clone(),
            secret: self.secret.clone(),
        }
    }

    fn decrypt(&self, data: &str) -> (call: EngineCall) {
        EngineCall::NaclBoxOpen {
            encrypted: String::from_str(data),
            nonce: self.nonce.clone(),
            their_public: self.their_pubkey.clone(),
            secret: self.secret.clone(),
        }
    }
}

/// A box of any of the three ciphers.
#[derive(Clone, Debug)]
pub enum CipherBox {
    Secret(NaClSecretBox),
    Public(NaClBox),
    Stream(ChaChaBox),
}

/// A `CipherBox` as plain values.
pub enum CipherBoxView {
    Secret { key: Seq<char>, nonce: Seq<char> },
    Public { their_pubkey: Seq<char>, secret: Seq<char>, nonce: Seq<char> },
    Stream { key: Seq<char>, nonce: Seq<char> },
}

impl View for CipherBox {
    type V = CipherBoxView;

    open spec fn view(&self) -> CipherBoxView {
        match *self {
            CipherBox::Secret(b) => CipherBoxView::Secret { key: b.key@, nonce: b.nonce@ },
            CipherBox::Public(b) => CipherBoxView::Public {
                their_pubkey: b.their_pubkey@,
                secret: b.secret@,
                nonce: b.nonce@,
            },
            CipherBox::Stream(b) => CipherBoxView::Stream { key: b.key@, nonce: b.nonce@ },
        }
    }
}

impl CipherBoxView {
    /// The cipher of the box.
    pub open spec fn box_type(self) -> EncryptionBoxType {
        match self {
            CipherBoxView::Secret { .. } => EncryptionBoxType::SecretNaCl,
            CipherBoxView::Public { .. } => EncryptionBoxType::NaCl,
            CipherBoxView::Stream { .. } => EncryptionBoxType::ChaCha20,
        }
    }

    /// The key that the box must keep to itself.
    pub open spec fn secret_key(self) -> Seq<char> {
        match self {
            CipherBoxView::Secret { key, .. } => key,
            CipherBoxView::Public { secret, .. } => secret,
            CipherBoxView::Stream { key, .. } => key,
        }
    }

    /// The nonce of the box.
    pub open spec fn nonce(self) -> Seq<char> {
        match self {
            CipherBoxView::Secret { nonce, .. } => nonce,
            CipherBoxView::Public { nonce, .. } => nonce,
            CipherBoxView::Stream { nonce, .. } => nonce,
        }
    }

    /// The other party's public key, for the cipher between two parties.
    pub open spec fn their_public(self) -> Option<Seq<char>> {
        match self {
            CipherBoxView::Public { their_pubkey, .. } => Some(their_pubkey),
            _ => None,
        }
    }
}

/// The box of cipher `box_type` over the given key material. Only the cipher
/// between two parties takes `their_pubkey`.
pub open spec fn built(
    box_type: EncryptionBoxType,
    key: Seq<char>,
    nonce: Seq<char>,
    their_pubkey: Seq<char>,
) -> CipherBoxView {
    match box_type {
        EncryptionBoxType::SecretNaCl => CipherBoxView::Secret { key, nonce },
        EncryptionBoxType::NaCl => CipherBoxView::Public { their_pubkey, secret: key, nonce },
        EncryptionBoxType::ChaCha20 => CipherBoxView::Stream { key, nonce },
    }
}

impl CipherBox {
    /// Builds the box of cipher `box_type` over the given key material.
    pub fn build(box_type: EncryptionBoxType, key: String, nonce: String, their_pubkey: String) -> (r:
        CipherBox)
        ensures
            r@ == built(box_type, key@, nonce@, their_pubkey@),
    {
        match box_type {
            EncryptionBoxType::SecretNaCl => CipherBox::Secret(NaClSecretBox { key, nonce }),
            EncryptionBoxType::NaCl => CipherBox::Public(
                NaClBox { their_pubkey, secret: key, nonce },
            ),
            EncryptionBoxType::ChaCha20 => CipherBox::Stream(ChaChaBox { key, nonce }),
        }
    }

    /// Tells the cipher of the box.
    pub fn box_type(&self) -> (r: EncryptionBoxType)
        ensures
            r == self@.box_type(),
    {
        match self {
            CipherBox::Secret(_) => EncryptionBoxType::SecretNaCl,
            CipherBox::Public(_) => EncryptionBoxType::NaCl,
            CipherBox::Stream(_) => EncryptionBoxType::ChaCha20,
        }
    }
}

impl EncryptionBox for CipherBox {
    open spec fn info(&self) -> BoxInfoView {
        match *self {
            CipherBox::Secret(b) => b.info(),
            CipherBox::Public(b) => b.info(),
            CipherBox::Stream(b) => b.info(),
        }
    }

    open spec fn encryption(&self, data: Seq<char>) -> EngineCallView {
        match *self {
            CipherBox::Secret(b) => b.encryption(data),
            CipherBox::Public(b) => b.encryption(data),
            CipherBox::Stream(b) => b.encryption(data),
        }
    }

    open spec fn decryption(&self, data: Seq<char>) -> EngineCallView {
        match *self {
            CipherBox::Secret(b) => b.decryption(data),
            CipherBox::Public(b) => b.decryption(data),
            CipherBox::Stream(b) => b.decryption(data),
        }
    }

    fn get_info(&self) -> (r: BoxInfo) {
        match self {
            CipherBox::Secret(b) => b.get_info(),
            CipherBox::Public(b) => b.get_info(),
            CipherBox::Stream(b) => b.get_info(),
        }
    }

    fn encrypt(&self, data: &str) -> (call: EngineCall) {
        match self {
            CipherBox::Secret(b) => b.encrypt(data),
            CipherBox::Public(b) => b.encrypt(data),
            CipherBox::Stream(b) => b.encrypt(data),
        }
    }

    fn decrypt(&self, data: &str) -> (call: EngineCall) {
        match self {
            CipherBox::Secret(b) => b.decrypt(data),
            CipherBox::Public(b) => b.decrypt(data),
            CipherBox::Stream(b) => b.decrypt(data),
        }
    }
}

/// A box describes itself by its cipher, its nonce and the other party's
/// public key: two boxes that differ in their secret key alone give the same
/// description.
pub proof fn lemma_info_ignores_secret(a: CipherBox, b: CipherBox)
    requires
        a@.box_type() == b@.box_type(),
        a@.nonce() == b@.nonce(),
        a@.their_public() == b@.their_public(),
    ensures
        a.info() == b.info(),
{
}

/// The description of a box gives a text away exactly where the text is the
/// box's nonce or the other party's public key.
pub proof fn lemma_info_discloses(b: CipherBox, text: Seq<char>)
    ensures
        b.info().discloses(text) <==> (text == b@.nonce() || b@.their_public() == Some(text)),
{
    match b {
        CipherBox::Secret(x) => {
            lemma_described_discloses("NaclSecretBox"@, x.nonce@, None, text);
        },
        CipherBox::Public(x) => {
            lemma_described_discloses("NaclBox"@, x.nonce@, Some(x.their_pubkey@), text);
        },
        CipherBox::Stream(x) => {
            lemma_described_discloses("ChaCha20"@, x.nonce@, None, text);
        },
    }
}

/// No box gives its secret key away in its description, unless the key was
/// also handed to it as its nonce or as the other party's public key.
pub proof fn lemma_info_hides_secret(b: CipherBox)
    requires
        b@.secret_key() != b@.nonce(),
        b@.their_public() != Some(b@.secret_key()),
    ensures
        !b.info().discloses(b@.secret_key()),
{
    lemma_info_discloses(b, b@.secret_key());
}

/// A box over a key of full width and a nonce of its cipher's width, which is
/// not handed its own secret key as the other party's public key, never gives
/// the secret key away.
pub proof fn lemma_info_hides_full_key(b: CipherBox)
    requires
        is_full_key(b@.secret_key()),
        is_nonce(b@.box_type(), b@.nonce()),
        b@.their_public() != Some(b@.secret_key()),
    ensures
        !b.info().discloses(b@.secret_key()),
{
    lemma_info_discloses(b, b@.secret_key());
}

/// The call that decrypts is the counterpart of the call that encrypts: it
/// runs the undoing primitive with the same key, nonce and, between two
/// parties, the same keys.
pub proof fn lemma_decryption_is_counterpart(b: CipherBox, plain: Seq<char>, sealed: Seq<char>)
    ensures
        b.decryption(sealed) == b.encryption(plain).counterpart(sealed),
        b.encryption(plain) == b.decryption(sealed).counterpart(plain),
        b.decryption(sealed).verifies() <==> !(b@.box_type() == EncryptionBoxType::ChaCha20),
        !b.encryption(plain).verifies(),
{
}

/// The stream cipher decrypts by the call that encrypts.
pub proof fn lemma_stream_cipher_is_its_own_inverse(b: ChaChaBox, data: Seq<char>)
    ensures
        b.decryption(data) == b.encryption(data),
{
}

} // verus!
