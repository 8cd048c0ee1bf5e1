//! Device identity and pairing-code values.
//!
//! `KeyPair` is the long-lived signing identity of a device; `TetherKey` is
//! the short-lived six-digit pairing code a host shows to the person pairing
//! a peer.  The Ed25519, SHA-512 and Base64 primitives come from outside
//! crates and are reached through the trusted wrappers at the top of this
//! file; everything built on them is verified.

use vstd::prelude::*;
use vstd::string::*;
use crate::error::CoreError;
use base64ct::Encoding;
use ed25519_dalek::Digest;

verus! {

/// The Ed25519 verifying key that `ed25519_dalek` derives from a 32-byte seed.
pub uninterp spec fn ed25519_public_of(seed: Seq<u8>) -> Seq<u8>;

/// The detached Ed25519 signature that `ed25519_dalek` produces for a seed and message.
pub uninterp spec fn ed25519_sign_of(seed: Seq<u8>, msg: Seq<u8>) -> Seq<u8>;

/// Whether `ed25519_dalek` accepts `sig` as a signature on `msg` under `public`.
pub uninterp spec fn ed25519_verify_of(public: Seq<u8>, msg: Seq<u8>, sig: Seq<u8>) -> bool;

/// The SHA-512 digest of the input bytes.
pub uninterp spec fn sha512_of(input: Seq<u8>) -> Seq<u8>;

/// The standard padded Base64 encoding of the input bytes.
pub uninterp spec fn base64_of(bytes: Seq<u8>) -> Seq<char>;

/// What standard padded Base64 decoding yields on the input text, if anything.
pub uninterp spec fn base64_decode_of(text: Seq<char>) -> Option<Seq<u8>>;

/// Relies on rand's `OsRng::try_fill_bytes`: fills a fresh buffer of length
/// `n` from the operating system's entropy source, or reports that the
/// source is unavailable.  Nothing is promised of the bytes themselves.
#[verifier::external_body]
pub(crate) fn os_random_bytes(n: usize) -> (r: Option<Vec<u8>>)
    ensures
        r matches Some(v) ==> v@.len() == n,
{
    let mut buf = vec![0u8; n];
    match rand::RngCore::try_fill_bytes(&mut rand::rngs::OsRng, &mut buf) {
        Ok(()) => Some(buf),
        Err(_) => None,
    }
}

/// Relies on rand's `thread_rng` and `Rng::gen_range`: a uniform draw from
/// the closed range [100000, 999999].  Only the range is promised.
#[verifier::external_body]
pub(crate) fn random_code_value() -> (r: u32)
    ensures
        100000 <= r <= 999999,
{
    rand::Rng::gen_range(&mut rand::thread_rng(), 100_000u32..1_000_000u32)
}

/// Relies on `ed25519_dalek::SigningKey::from_bytes` and `verifying_key`:
/// the verifying key is a function of the 32-byte seed alone.
#[verifier::external_body]
pub(crate) fn derive_public_key(seed: &Vec<u8>) -> (r: Vec<u8>)
    requires
        seed@.len() == 32,
    ensures
        r@ == ed25519_public_of(seed@),
        r@.len() == 32,
{
    let arr: [u8; 32] = seed.as_slice().try_into().unwrap();
    let sk = ed25519_dalek::SigningKey::from_bytes(&arr);
    sk.verifying_key().to_bytes().to_vec()
}

/// Relies on `ed25519_dalek::Signer::sign` for `SigningKey`: the signature
/// is a function of seed and message alone, is 64 bytes long, and verifies
/// under the seed's verifying key.
#[verifier::external_body]
pub(crate) fn sign_bytes(seed: &Vec<u8>, msg: &Vec<u8>) -> (r: Vec<u8>)
    requires
        seed@.len() == 32,
    ensures
        r@ == ed25519_sign_of(seed@, msg@),
        r@.len() == 64,
        ed25519_verify_of(ed25519_public_of(seed@), msg@, r@),
{
    let arr: [u8; 32] = seed.as_slice().try_into().unwrap();
    let sk = ed25519_dalek::SigningKey::from_bytes(&arr);
    let sig = ed25519_dalek::Signer::sign(&sk, msg.as_slice());
    sig.to_bytes().to_vec()
}

/// Relies on `ed25519_dalek::VerifyingKey::from_bytes` and
/// `Verifier::verify`: acceptance is a function of key, message and
/// signature alone; a key that does not decompress accepts nothing.
#[verifier::external_body]
pub(crate) fn verify_bytes(public: &Vec<u8>, msg: &Vec<u8>, sig: &Vec<u8>) -> (r: bool)
    requires
        public@.len() == 32,
        sig@.len() == 64,
    ensures
        r == ed25519_verify_of(public@, msg@, sig@),
{
    let parr: [u8; 32] = public.as_slice().try_into().unwrap();
    let sarr: [u8; 64] = sig.as_slice().try_into().unwrap();
    match ed25519_dalek::VerifyingKey::from_bytes(&parr) {
        Ok(vk) => {
            let sig = ed25519_dalek::Signature::from_bytes(&sarr);
            ed25519_dalek::Verifier::verify(&vk, msg.as_slice(), &sig).is_ok()
        }
        Err(_) => false,
    }
}

/// Relies on `Sha512::digest` (re-exported by `ed25519_dalek` from `sha2`):
/// the digest is a function of the input alone and is 64 bytes long.
#[verifier::external_body]
pub(crate) fn sha512(input: &Vec<u8>) -> (r: Vec<u8>)
    ensures
        r@ == sha512_of(input@),
        r@.len() == 64,
{
    ed25519_dalek::Sha512::digest(input.as_slice()).to_vec()
}

/// Relies on `base64ct::Base64::encode_string`: standard padded Base64,
/// whose length is four bytes per three input bytes rounded up, and which
/// `decode_vec` inverts exactly.
#[verifier::external_body]
pub(crate) fn base64_encode(bytes: &Vec<u8>) -> (r: String)
    requires
        bytes@.len() <= 0x0FFF_FFFF,
    ensures
        r@ == base64_of(bytes@),
        base64_decode_of(r@) == Some(bytes@),
        r@.len() == 4 * ((bytes@.len() + 2) / 3),
{
    base64ct::Base64::encode_string(bytes.as_slice())
}

/// Relies on `base64ct::Base64::decode_vec`: decoding is a function of the
/// input text alone, and rejects text that is not canonical padded Base64.
#[verifier::external_body]
pub(crate) fn base64_decode(text: &str) -> (r: Option<Vec<u8>>)
    ensures
        r matches Some(v) ==> base64_decode_of(text@) == Some(v@),
        r is None ==> base64_decode_of(text@) is None,
{
    match base64ct::Base64::decode_vec(text) {
        Ok(v) => Some(v),
        Err(_) => None,
    }
}

/// Long-lived signing keypair that represents a device's durable identity.
///
/// The private seed never leaves this module in executable code; only the
/// public key and values derived from the seed (signatures, encodings) are
/// handed out.
#[derive(Debug, Clone)]
pub struct KeyPair {
    pub(crate) private_key: Vec<u8>,
    pub(crate) public_key: Vec<u8>,
}

impl KeyPair {
    /// The private seed, as a ghost value.
    pub closed spec fn spec_private_key(&self) -> Seq<u8> {
        self.private_key@
    }

    /// The public verifying key, as a ghost value.
    pub closed spec fn spec_public_key(&self) -> Seq<u8> {
        self.public_key@
    }

    /// A well-formed keypair: a 32-byte seed with its derived verifying key.
    pub open spec fn wf(&self) -> bool {
        &&& self.spec_private_key().len() == 32
        &&& self.spec_public_key().len() == 32
        &&& self.spec_public_key() == ed25519_public_of(self.spec_private_key())
    }

    /// Generate a fresh identity from the OS entropy source.
    ///
    /// Fails only if that source is unavailable.
    pub fn generate() -> (r: Result<KeyPair, CoreError>)
        ensures
            r matches Ok(k) ==> k.wf(),
            r matches Err(e) ==> e matches CoreError::Crypto(_),
    {
        match os_random_bytes(32) {
            Some(seed) => {
                let public_key = derive_public_key(&seed);
                Ok(KeyPair { private_key: seed, public_key })
            }
            None => Err(CoreError::Crypto(String::from_str("entropy source unavailable"))),
        }
    }

    /// Rebuild an identity from a persisted 32-byte seed.
    ///
    /// Returns `Ok` exactly when the seed is 32 bytes long.
    pub fn from_seed(seed: Vec<u8>) -> (r: Result<KeyPair, CoreError>)
        ensures
            r matches Ok(k) ==> k.wf() && k.spec_private_key() == seed@,
            r is Ok <==> seed@.len() == 32,
            r matches Err(e) ==> e matches CoreError::Crypto(_),
    {
        if seed.len() != 32 {
            return Err(CoreError::Crypto(String::from_str("identity seed must be 32 bytes")));
        }
        let public_key = derive_public_key(&seed);
        Ok(KeyPair { private_key: seed, public_key })
    }

    /// The private seed, for the one auditable export point: handing the
    /// identity to the external persistence collaborator.
    pub fn seed_bytes(&self) -> (r: &Vec<u8>)
        ensures
            r@ == self.spec_private_key(),
    {
        &self.private_key
    }

    /// The public key bytes.
    pub fn public_key(&self) -> (r: &Vec<u8>)
        ensures
            r@ == self.spec_public_key(),
    {
        &self.public_key
    }

    /// The public key as a standard Base64 string.
    pub fn public_key_base64(&self) -> (r: String)
        requires
            self.wf(),
        ensures
            r@ == base64_of(self.spec_public_key()),
            base64_decode_of(r@) == Some(self.spec_public_key()),
            r@.len() == 44,
    {
        base64_encode(&self.public_key)
    }

    /// Sign a message with the private key; the result verifies under the
    /// public key.
    pub fn sign(&self, msg: &Vec<u8>) -> (r: Vec<u8>)
        requires
            self.wf(),
        ensures
            r@ == ed25519_sign_of(self.spec_private_key(), msg@),
            r@.len() == 64,
            ed25519_verify_of(self.spec_public_key(), msg@, r@),
    {
        sign_bytes(&self.private_key, msg)
    }
}

/// Decode a Base64 public-key string back to its 32 key bytes.
///
/// Returns `Ok` exactly when the text is canonical Base64 of 32 bytes.
pub fn decode_public_key(text: &str) -> (r: Result<Vec<u8>, CoreError>)
    ensures
        r matches Ok(v) ==> base64_decode_of(text@) == Some(v@) && v@.len() == 32,
        r is Ok <==> (base64_decode_of(text@) matches Some(b) && b.len() == 32),
        r matches Err(e) ==> e matches CoreError::Crypto(_),
{
    match base64_decode(text) {
        Some(v) => {
            if v.len() == 32 {
                Ok(v)
            } else {
                Err(CoreError::Crypto(String::from_str("not a 32-byte public key")))
            }
        }
        None => Err(CoreError::Crypto(String::from_str("invalid Base64 text"))),
    }
}

/// Six-digit pairing code value, always in [100000, 999999].
#[derive(Debug, Clone, Copy, PartialEq, Eq, Structural)]
pub struct TetherKey(pub(crate) u32);

/// Whether a character sequence is exactly six ASCII digits.
pub open spec fn is_code_format(s: Seq<char>) -> bool {
    s.len() == 6 && forall|i: int| 0 <= i < 6 ==> 48 <= #[trigger] (s[i] as int) <= 57
}

/// The numeric value of a six-digit character sequence.
pub open spec fn code_value_of(s: Seq<char>) -> int
    recommends
        is_code_format(s),
{
    (s[0] as int - 48) * 100000 + (s[1] as int - 48) * 10000 + (s[2] as int - 48) * 1000
        + (s[3] as int - 48) * 100 + (s[4] as int - 48) * 10 + (s[5] as int - 48)
}

impl TetherKey {
    /// The numeric value, as a ghost value.
    pub closed spec fn spec_value(&self) -> u32 {
        self.0
    }

    /// A well-formed tether key holds a six-digit value.
    pub open spec fn wf(&self) -> bool {
        100000 <= self.spec_value() <= 999999
    }

    /// Draw a fresh uniformly random six-digit tether key.
    pub fn generate() -> (r: TetherKey)
        ensures
            r.wf(),
    {
        TetherKey(random_code_value())
    }

    /// The numeric value of the code.
    pub fn value(&self) -> (r: u32)
        ensures
            r == self.spec_value(),
    {
        self.0
    }

    /// The six-digit display string of the code.
    pub fn as_string(&self) -> (r: String)
        requires
            self.wf(),
        ensures
            is_code_format(r@),
            code_value_of(r@) == self.spec_value(),
    {
        let v = self.0;
        let mut s = String::new();
        let d0 = v / 100000;
        let r0 = v % 100000;
        let d1 = r0 / 10000;
        let r1 = r0 % 10000;
        let d2 = r1 / 1000;
        let r2 = r1 % 1000;
        let d3 = r2 / 100;
        let r3 = r2 % 100;
        let d4 = r3 / 10;
        let d5 = r3 % 10;
        s.append(digit_str(d0));
        s.append(digit_str(d1));
        s.append(digit_str(d2));
        s.append(digit_str(d3));
        s.append(digit_str(d4));
        s.append(digit_str(d5));
        proof {
            assert(s@.len() == 6);
            assert(s@[0] as int == 48 + d0);
            assert(s@[1] as int == 48 + d1);
            assert(s@[2] as int == 48 + d2);
            assert(s@[3] as int == 48 + d3);
            assert(s@[4] as int == 48 + d4);
            assert(s@[5] as int == 48 + d5);
        }
        s
    }
}

/// The one-character string for a decimal digit.
fn digit_str(d: u32) -> (r: &'static str)
    requires
        d <= 9,
    ensures
        r@.len() == 1,
        r@[0] as int == 48 + d,
{
    proof {
        reveal_strlit("0");
        reveal_strlit("1");
        reveal_strlit("2");
        reveal_strlit("3");
        reveal_strlit("4");
        reveal_strlit("5");
        reveal_strlit("6");
        reveal_strlit("7");
        reveal_strlit("8");
        reveal_strlit("9");
    }
    match d {
        0 => "0",
        1 => "1",
        2 => "2",
        3 => "3",
        4 => "4",
        5 => "5",
        6 => "6",
        7 => "7",
        8 => "8",
        _ => "9",
    }
}

/// Parse a candidate pairing code from its display string.
///
/// Returns `Ok` exactly when the text is six ASCII digits whose value is at
/// least 100000 (a six-digit number cannot exceed 999999).
pub fn parse_tether_key(text: &str) -> (r: Result<TetherKey, CoreError>)
    ensures
        r is Ok <==> is_code_format(text@) && code_value_of(text@) >= 100000,
        r matches Ok(t) ==> t.wf() && t.spec_value() == code_value_of(text@),
        r matches Err(e) ==> e == CoreError::InvalidTetherKey,
{
    let n = text.unicode_len();
    if n != 6 {
        return Err(CoreError::InvalidTetherKey);
    }
    let c0 = char_digit(text.get_char(0));
    let c1 = char_digit(text.get_char(1));
    let c2 = char_digit(text.get_char(2));
    let c3 = char_digit(text.get_char(3));
    let c4 = char_digit(text.get_char(4));
    let c5 = char_digit(text.get_char(5));
    match (c0, c1, c2, c3, c4, c5) {
        (Some(d0), Some(d1), Some(d2), Some(d3), Some(d4), Some(d5)) => {
            let v = d0 * 100000 + d1 * 10000 + d2 * 1000 + d3 * 100 + d4 * 10 + d5;
            if v >= 100000 {
                Ok(TetherKey(v))
            } else {
                Err(CoreError::InvalidTetherKey)
            }
        }
        _ => Err(CoreError::InvalidTetherKey),
    }
}

/// The decimal value of an ASCII digit character, if it is one.
fn char_digit(c: char) -> (r: Option<u32>)
    ensures
        r matches Some(d) ==> 48 <= c as int <= 57 && d == c as int - 48,
        r is None ==> !(48 <= c as int <= 57),
{
    let x = c as u32;
    if 48 <= x && x <= 57 {
        Some(x - 48)
    } else {
        None
    }
}

} // verus!
