//! Key pairs, and the hexadecimal form in which a secret is kept on disk.

use vstd::prelude::*;
use crate::public_id::is_hex_digit;
use crate::public_id::is_lower_hex_of_len;
use crate::public_id::PublicId;

verus! {

/// Number of bytes in a secret.
pub const SECRET_LEN: usize = 32;

/// The number that a hexadecimal digit stands for.
pub open spec fn hex_digit_value(c: char) -> int {
    if '0' <= c && c <= '9' {
        c as int - '0' as int
    } else if 'a' <= c && c <= 'f' {
        c as int - 'a' as int + 10
    } else {
        c as int - 'A' as int + 10
    }
}

/// The lower-case digit that stands for a number below 16.
pub open spec fn lower_hex_digit_of(n: int) -> char {
    if n < 10 {
        (n + '0' as int) as char
    } else {
        (n - 10 + 'a' as int) as char
    }
}

/// Whether `text` is an even number of hexadecimal digits.
pub open spec fn is_hex_text(text: Seq<char>) -> bool {
    text.len() % 2 == 0 && forall|i: int| 0 <= i < text.len() ==> is_hex_digit(#[trigger] text[i])
}

/// The bytes that hexadecimal digits stand for, two digits to a byte, the high one first.
pub open spec fn bytes_of_hex(text: Seq<char>) -> Seq<u8> {
    Seq::new(
        text.len() / 2,
        |i: int| (16 * hex_digit_value(text[2 * i]) + hex_digit_value(text[2 * i + 1])) as u8,
    )
}

/// Bytes as lower-case hexadecimal digits, two digits to a byte, the high one first.
pub open spec fn hex_of_bytes(bytes: Seq<u8>) -> Seq<char> {
    Seq::new(
        2 * bytes.len(),
        |i: int|
            lower_hex_digit_of(
                if i % 2 == 0 {
                    bytes[i / 2] as int / 16
                } else {
                    bytes[i / 2] as int % 16
                },
            ),
    )
}

/// Writing bytes as hexadecimal digits and reading the digits back gives the bytes:
/// a secret that was saved is the secret that is loaded.
pub proof fn lemma_hex_round_trip(bytes: Seq<u8>)
    ensures
        is_hex_text(hex_of_bytes(bytes)),
        bytes_of_hex(hex_of_bytes(bytes)) == bytes,
{
    let text = hex_of_bytes(bytes);
    assert forall|i: int| 0 <= i < text.len() implies is_hex_digit(#[trigger] text[i]) by {
        let n = if i % 2 == 0 {
            bytes[i / 2] as int / 16
        } else {
            bytes[i / 2] as int % 16
        };
        assert(0 <= n < 16);
    }
    assert forall|i: int| 0 <= i < bytes.len() implies bytes_of_hex(text)[i] == bytes[i] by {
        let high = bytes[i] as int / 16;
        let low = bytes[i] as int % 16;
        assert(text[2 * i] == lower_hex_digit_of(high));
        assert(text[2 * i + 1] == lower_hex_digit_of(low));
        assert(hex_digit_value(lower_hex_digit_of(high)) == high);
        assert(hex_digit_value(lower_hex_digit_of(low)) == low);
    }
    assert(bytes_of_hex(text) =~= bytes);
}

/// Calls `hex::decode`. It accepts an even number of hexadecimal digits of either case
/// and gives one byte for every two digits, the high digit first; any other text is
/// refused.
#[verifier::external_body]
pub(crate) fn hex_decode(text: &str) -> (r: Option<Vec<u8>>)
    ensures
        r.is_some() <==> is_hex_text(text@),
        r matches Some(bytes) ==> bytes@ == bytes_of_hex(text@),
{
    match hex::decode(text) {
        Ok(bytes) => Some(bytes),
        Err(_) => None,
    }
}

/// Calls `hex::encode`. It writes every byte as two lower-case hexadecimal digits, the
/// high digit first.
#[verifier::external_body]
pub(crate) fn hex_encode(bytes: &Vec<u8>) -> (text: String)
    ensures
        text@ == hex_of_bytes(bytes@),
{
    hex::encode(bytes)
}

/// Whether the bytes are a secret that the curve accepts: whether
/// `nostr_sdk::SecretKey::from_slice` succeeds on them.
pub uninterp spec fn secret_is_usable(secret: Seq<u8>) -> bool;

/// The public identifier that belongs to a secret: the hexadecimal form of the public
/// key that `nostr_sdk::Keys::new` derives from it.
pub uninterp spec fn public_id_of_secret(secret: Seq<u8>) -> Seq<char>;

/// A secret and the public identifier derived from it.
pub struct KeyPair {
    pub(crate) secret: Vec<u8>,
    pub(crate) public: PublicId,
}

impl KeyPair {
    #[verifier::type_invariant]
    spec fn derived(&self) -> bool {
        &&& self.secret@.len() == SECRET_LEN
        &&& secret_is_usable(self.secret@)
        &&& self.public@ == public_id_of_secret(self.secret@)
    }

    /// The bytes of the secret.
    pub closed spec fn secret_bytes(&self) -> Seq<u8> {
        self.secret@
    }

    /// The public identifier as a text.
    pub closed spec fn public_hex(&self) -> Seq<char> {
        self.public@
    }

    /// The public half of the pair: the identifier that belongs to the secret, which
    /// is a usable one.
    pub fn public_id(&self) -> (id: &PublicId)
        ensures
            id@ == self.public_hex(),
            secret_is_usable(self.secret_bytes()),
            self.public_hex() == public_id_of_secret(self.secret_bytes()),
            is_lower_hex_of_len(self.public_hex(), 64),
    {
        proof {
            use_type_invariant(self);
        }
        let _ = self.public.as_str();
        &self.public
    }

    /// The secret in the form in which it is stored: 64 lower-case hexadecimal digits.
    /// The secret of a pair at hand is always a usable one.
    pub fn secret_hex(&self) -> (text: String)
        ensures
            text@ == hex_of_bytes(self.secret_bytes()),
            text@.len() == 64,
            secret_is_usable(self.secret_bytes()),
    {
        proof {
            use_type_invariant(self);
        }
        hex_encode(&self.secret)
    }

    /// A copy of the pair.
    pub fn duplicate(&self) -> (copy: KeyPair)
        ensures
            copy.secret_bytes() == self.secret_bytes(),
            copy.public_hex() == self.public_hex(),
    {
        proof {
            use_type_invariant(self);
        }
        let secret = self.secret.clone();
        assert(secret@ =~= self.secret@);
        KeyPair { secret, public: self.public.duplicate() }
    }

    /// Makes the pair of a secret given as bytes. `None` where the bytes are not a
    /// secret that the curve accepts.
    pub fn from_secret_bytes(secret: &Vec<u8>) -> (r: Option<KeyPair>)
        ensures
            r.is_some() <==> secret_is_usable(secret@),
            r matches Some(keys) ==> keys.secret_bytes() == secret@,
    {
        keys_of_secret(secret)
    }

    /// Makes a new pair from the system's randomness.
    pub fn generate() -> (keys: KeyPair)
        ensures
            secret_is_usable(keys.secret_bytes()),
            keys.public_hex() == public_id_of_secret(keys.secret_bytes()),
    {
        generate_keys()
    }
}

/// Calls `nostr_sdk::SecretKey::from_slice` and, where it accepts the bytes,
/// `nostr_sdk::Keys::new`. The first accepts exactly the usable secrets, all of them
/// 32 bytes long; the second derives the public identifier, which `to_hex` writes as
/// 64 lower-case digits.
#[verifier::external_body]
pub(crate) fn keys_of_secret(secret: &Vec<u8>) -> (r: Option<KeyPair>)
    ensures
        r.is_some() <==> secret_is_usable(secret@),
        r matches Some(keys) ==> keys.secret@ == secret@ && keys.secret@.len() == SECRET_LEN
            && keys.public@ == public_id_of_secret(secret@) && is_lower_hex_of_len(
            keys.public@,
            64,
        ),
{
    match nostr_sdk::SecretKey::from_slice(secret.as_slice()) {
        Ok(key) => {
            let keys = nostr_sdk::Keys::new(key);
            Some(
                KeyPair {
                    secret: secret.clone(),
                    public: PublicId { hex: keys.public_key().to_hex() },
                },
            )
        },
        Err(_) => None,
    }
}

/// Calls `nostr_sdk::Keys::generate`, which draws a usable secret from the system's
/// randomness and derives its public identifier.
#[verifier::external_body]
pub(crate) fn generate_keys() -> (keys: KeyPair)
    ensures
        keys.secret@.len() == SECRET_LEN,
        secret_is_usable(keys.secret@),
        keys.public@ == public_id_of_secret(keys.secret@),
        is_lower_hex_of_len(keys.public@, 64),
{
    let keys = nostr_sdk::Keys::generate();
    KeyPair {
        secret: keys.secret_key().as_secret_bytes().to_vec(),
        public: PublicId { hex: keys.public_key().to_hex() },
    }
}

} // verus!
