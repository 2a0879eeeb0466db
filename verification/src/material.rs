//! The shapes of key material: which cipher a box wraps, what a secret key
//! and a nonce must look like, and how a secret key is brought to its full
//! width.

use vstd::prelude::*;
use crate::text::{all_hex, is_hex, pad_zeros, zero_padded, zeros};

verus! {

/// The cipher that a box wraps.
#[derive(Clone, Copy, Debug, PartialEq, Eq, Structural)]
pub enum EncryptionBoxType {
    /// Authenticated encryption under a shared secret key.
    SecretNaCl,
    /// Authenticated encryption between two key pairs.
    NaCl,
    /// The stream cipher.
    ChaCha20,
}

/// The width of a 256-bit key in hexadecimal digits.
pub const KEY_HEX_LEN: usize = 64;

/// The width of a 96-bit nonce in hexadecimal digits.
pub const NONCE_HEX_LEN: usize = 24;

/// How many hexadecimal digits the nonce of a cipher has.
pub open spec fn nonce_hex_len(box_type: EncryptionBoxType) -> nat {
    match box_type {
        EncryptionBoxType::SecretNaCl => NONCE_HEX_LEN as nat,
        EncryptionBoxType::NaCl => NONCE_HEX_LEN as nat,
        EncryptionBoxType::ChaCha20 => NONCE_HEX_LEN as nat,
    }
}

/// `nonce` is one for the cipher: hexadecimal, and of the cipher's width.
pub open spec fn is_nonce(box_type: EncryptionBoxType, nonce: Seq<char>) -> bool {
    nonce.len() == nonce_hex_len(box_type) && is_hex(nonce)
}

/// `secret` reads as a key of at most 256 bits: one to sixty-four
/// hexadecimal digits.
pub open spec fn is_secret(secret: Seq<char>) -> bool {
    1 <= secret.len() <= KEY_HEX_LEN && is_hex(secret)
}

/// A key in its full width: sixty-four hexadecimal digits.
pub open spec fn is_full_key(key: Seq<char>) -> bool {
    key.len() == KEY_HEX_LEN && is_hex(key)
}

/// `secret` brought to sixty-four digits by zeros in front.
pub open spec fn normalized(secret: Seq<char>) -> Seq<char> {
    zero_padded(secret, KEY_HEX_LEN as nat)
}

/// Tells how many hexadecimal digits the nonce of a cipher has.
pub fn nonce_width(box_type: EncryptionBoxType) -> (n: usize)
    ensures
        n == nonce_hex_len(box_type),
{
    match box_type {
        EncryptionBoxType::SecretNaCl => NONCE_HEX_LEN,
        EncryptionBoxType::NaCl => NONCE_HEX_LEN,
        EncryptionBoxType::ChaCha20 => NONCE_HEX_LEN,
    }
}

/// Tells whether `nonce` is one for the cipher. Nothing is cut off or added
/// to make it fit.
pub fn check_nonce(box_type: EncryptionBoxType, nonce: &str) -> (r: bool)
    ensures
        r == is_nonce(box_type, nonce@),
{
    nonce.unicode_len() == nonce_width(box_type) && all_hex(nonce)
}

/// Brings a secret key to its full width: `None` where `secret` is not one to
/// sixty-four hexadecimal digits, else the digits with zeros in front.
pub fn normalize_secret(secret: &str) -> (r: Option<String>)
    ensures
        r is Some <==> is_secret(secret@),
        r is Some ==> r->0@ == normalized(secret@) && is_full_key(r->0@),
{
    let n: usize = secret.unicode_len();
    if n == 0 || n > KEY_HEX_LEN || !all_hex(secret) {
        return None;
    }
    let key = pad_zeros(secret, KEY_HEX_LEN);
    proof {
        lemma_normalized_is_full(secret@);
    }
    Some(key)
}

/// A secret key in its full width is sixty-four hexadecimal digits, and ends
/// in the digits that were given.
pub proof fn lemma_normalized_is_full(secret: Seq<char>)
    requires
        is_secret(secret),
    ensures
        is_full_key(normalized(secret)),
        normalized(secret).subrange(KEY_HEX_LEN - secret.len(), KEY_HEX_LEN as int) == secret,
        forall|i: int| 0 <= i < KEY_HEX_LEN - secret.len() ==> normalized(secret)[i] == '0',
{
    let k = normalized(secret);
    let lead = (KEY_HEX_LEN - secret.len()) as nat;
    if secret.len() < KEY_HEX_LEN {
        assert(k == zeros(lead) + secret);
    } else {
        assert(k == secret);
    }
    assert(k.len() == KEY_HEX_LEN);
    assert forall|i: int| 0 <= i < k.len() implies crate::text::is_hex_digit(#[trigger] k[i]) by {
        if i < lead {
            assert(k[i] == '0');
        } else {
            assert(k[i] == secret[i - lead]);
        }
    }
    assert(k.subrange(KEY_HEX_LEN - secret.len(), KEY_HEX_LEN as int) =~= secret);
}

/// A key that has its full width is left as it is, so to normalize twice is
/// to normalize once.
pub proof fn lemma_normalize_idempotent(secret: Seq<char>)
    requires
        is_secret(secret),
    ensures
        is_secret(normalized(secret)),
        normalized(normalized(secret)) == normalized(secret),
{
    lemma_normalized_is_full(secret);
}

/// Two secrets of one width that differ give different keys.
pub proof fn lemma_normalize_injective(a: Seq<char>, b: Seq<char>)
    requires
        is_secret(a),
        is_secret(b),
        a.len() == b.len(),
        normalized(a) == normalized(b),
    ensures
        a == b,
{
    lemma_normalized_is_full(a);
    lemma_normalized_is_full(b);
}

} // verus!
