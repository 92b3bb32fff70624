//! Public identifiers: the 32-byte keys by which senders and recipients are known,
//! held in their canonical form of 64 lower-case hexadecimal digits.

use vstd::prelude::*;

verus! {

/// Whether `c` is one of `0-9`, `a-f`, `A-F`.
pub open spec fn is_hex_digit(c: char) -> bool {
    ('0' <= c && c <= '9') || ('a' <= c && c <= 'f') || ('A' <= c && c <= 'F')
}

/// Whether `c` is one of `0-9`, `a-f`.
pub open spec fn is_lower_hex_digit(c: char) -> bool {
    ('0' <= c && c <= '9') || ('a' <= c && c <= 'f')
}

/// The lower-case form of a hexadecimal digit; other characters are left alone.
pub open spec fn lower_hex_digit(c: char) -> char {
    if c == 'A' {
        'a'
    } else if c == 'B' {
        'b'
    } else if c == 'C' {
        'c'
    } else if c == 'D' {
        'd'
    } else if c == 'E' {
        'e'
    } else if c == 'F' {
        'f'
    } else {
        c
    }
}

/// Whether `s` consists of exactly `len` hexadecimal digits of either case.
pub open spec fn is_hex_of_len(s: Seq<char>, len: nat) -> bool {
    s.len() == len && forall|i: int| 0 <= i < s.len() ==> is_hex_digit(#[trigger] s[i])
}

/// Whether `s` consists of exactly `len` lower-case hexadecimal digits.
pub open spec fn is_lower_hex_of_len(s: Seq<char>, len: nat) -> bool {
    s.len() == len && forall|i: int| 0 <= i < s.len() ==> is_lower_hex_digit(#[trigger] s[i])
}

/// `s` with every hexadecimal digit in lower case.
pub open spec fn lower_hex(s: Seq<char>) -> Seq<char> {
    Seq::new(s.len(), |i: int| lower_hex_digit(s[i]))
}

/// A public identifier in canonical form: 64 lower-case hexadecimal digits.
#[derive(Debug)]
pub struct PublicId {
    pub(crate) hex: String,
}

impl View for PublicId {
    type V = Seq<char>;

    closed spec fn view(&self) -> Seq<char> {
        self.hex@
    }
}

impl PublicId {
    #[verifier::type_invariant]
    spec fn canonical(&self) -> bool {
        is_lower_hex_of_len(self.hex@, 64)
    }

    /// Reads an identifier from 64 hexadecimal digits of either case. `None` for any
    /// other text.
    pub fn parse(text: &str) -> (r: Option<PublicId>)
        ensures
            r.is_some() <==> is_hex_of_len(text@, 64),
            r matches Some(id) ==> id@ == lower_hex(text@),
    {
        parse_public_id(text)
    }

    /// Takes a text that is already in canonical form as an identifier.
    pub(crate) fn from_canonical(hex: String) -> (id: PublicId)
        requires
            is_lower_hex_of_len(hex@, 64),
        ensures
            id@ == hex@,
    {
        PublicId { hex }
    }

    /// The digits of the identifier: 64 of them, in lower case.
    pub fn as_str(&self) -> (text: &str)
        ensures
            text@ == self@,
            is_lower_hex_of_len(self@, 64),
    {
        proof {
            use_type_invariant(self);
        }
        self.hex.as_str()
    }

    /// A copy of the digits of the identifier.
    pub fn to_hex(&self) -> (text: String)
        ensures
            text@ == self@,
    {
        self.hex.clone()
    }

    /// A copy of the identifier.
    pub fn duplicate(&self) -> (copy: PublicId)
        ensures
            copy@ == self@,
    {
        proof {
            use_type_invariant(self);
        }
        PublicId { hex: self.hex.clone() }
    }

    /// Whether two identifiers are the same.
    pub fn same_as(&self, other: &PublicId) -> (r: bool)
        ensures
            r == (self@ == other@),
    {
        self.hex == other.hex
    }
}

/// Calls `nostr_sdk::PublicKey::from_hex` and, where it succeeds, `PublicKey::to_hex`.
/// The first decodes exactly the texts of 64 hexadecimal digits, either case; the
/// second writes the 32 bytes back as lower-case digits.
#[verifier::external_body]
pub(crate) fn parse_public_id(text: &str) -> (r: Option<PublicId>)
    ensures
        r.is_some() <==> is_hex_of_len(text@, 64),
        r matches Some(id) ==> id@ == lower_hex(text@),
{
    match nostr_sdk::PublicKey::from_hex(text) {
        Ok(key) => Some(PublicId { hex: key.to_hex() }),
        Err(_) => None,
    }
}

/// Tells whether `pubkey` names a public identifier: 64 hexadecimal digits.
pub fn validate_pubkey(pubkey: &str) -> (r: bool)
    ensures
        r == is_hex_of_len(pubkey@, 64),
{
    parse_public_id(pubkey).is_some()
}

} // verus!
