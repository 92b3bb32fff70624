//! The identity of the diary's owner: one key pair for the life of the process,
//! loaded from durable storage where it is there and made anew where it is not.

use vstd::prelude::*;
use crate::error::ShareError;
use crate::error::ShareErrorView;
use crate::keys::bytes_of_hex;
use crate::keys::hex_decode;
use crate::keys::hex_of_bytes;
use crate::keys::is_hex_text;
use crate::keys::lemma_hex_round_trip;
use crate::keys::secret_is_usable;
use crate::keys::KeyPair;

verus! {

/// The identity as it is kept in durable storage: the secret in hexadecimal digits.
#[derive(Debug)]
pub struct StoredKeys {
    pub private_key_hex: String,
}

/// The secret that stored digits stand for, where they stand for a usable one.
pub open spec fn stored_secret(stored: Option<Seq<char>>) -> Option<Seq<u8>> {
    match stored {
        None => None,
        Some(text) => if is_hex_text(text) && secret_is_usable(bytes_of_hex(text)) {
            Some(bytes_of_hex(text))
        } else {
            None
        },
    }
}

/// The digits of what was found in storage.
pub open spec fn stored_digits(stored: Option<StoredKeys>) -> Option<Seq<char>> {
    match stored {
        None => None,
        Some(keys) => Some(keys.private_key_hex@),
    }
}

/// Makes the key pair of what was found in storage. `None` where nothing was found,
/// where the text is not hexadecimal, or where the bytes are no usable secret.
pub fn load_nostr_keys(stored: &Option<StoredKeys>) -> (r: Option<KeyPair>)
    ensures
        match r {
            Some(keys) => stored_secret(stored_digits(*stored)) == Some(keys.secret_bytes()),
            None => stored_secret(stored_digits(*stored)).is_none(),
        },
{
    match stored {
        None => None,
        Some(keys) => match hex_decode(keys.private_key_hex.as_str()) {
            None => None,
            Some(bytes) => KeyPair::from_secret_bytes(&bytes),
        },
    }
}

/// Writes the key pair in the form in which it is stored. What is written loads
/// again as the same pair.
pub fn save_nostr_keys(keys: &KeyPair) -> (stored: StoredKeys)
    ensures
        stored.private_key_hex@ == hex_of_bytes(keys.secret_bytes()),
        secret_is_usable(keys.secret_bytes()),
        stored_secret(Some(stored.private_key_hex@)) == Some(keys.secret_bytes()),
{
    let private_key_hex = keys.secret_hex();
    proof {
        lemma_saved_identity_loads(keys.secret_bytes());
    }
    StoredKeys { private_key_hex }
}

/// An identity that was saved is the identity that is loaded: the stored form of a
/// usable secret stands for that secret.
pub proof fn lemma_saved_identity_loads(secret: Seq<u8>)
    requires
        secret_is_usable(secret),
    ensures
        stored_secret(Some(hex_of_bytes(secret))) == Some(secret),
{
    lemma_hex_round_trip(secret);
}

/// The secret of the identity that a provider holds.
pub open spec fn slot_secret(slot: Option<KeyPair>) -> Option<Seq<u8>> {
    match slot {
        None => None,
        Some(keys) => Some(keys.secret_bytes()),
    }
}

/// What a provider answers when it is asked for the identity.
pub enum IdentityStep {
    /// This is the identity.
    Ready(KeyPair),
    /// This pair was made anew. It becomes the identity once `stored` is written to
    /// durable storage.
    Persist { candidate: KeyPair, stored: StoredKeys },
}

/// Whether the step hands out the identity with this secret.
pub open spec fn ready_with(step: IdentityStep, secret: Seq<u8>) -> bool {
    match step {
        IdentityStep::Ready(keys) => keys.secret_bytes() == secret,
        IdentityStep::Persist { .. } => false,
    }
}

/// Whether the step asks for a new pair to be written, with the stored form of that
/// pair's secret.
pub open spec fn asks_to_persist(step: IdentityStep) -> bool {
    match step {
        IdentityStep::Ready(_) => false,
        IdentityStep::Persist { candidate, stored } => stored.private_key_hex@ == hex_of_bytes(
            candidate.secret_bytes(),
        ) && secret_is_usable(candidate.secret_bytes()),
    }
}

/// Whether the result is the identity with this secret.
pub open spec fn gives_identity(r: Result<KeyPair, ShareError>, secret: Seq<u8>) -> bool {
    match r {
        Ok(keys) => keys.secret_bytes() == secret,
        Err(_) => false,
    }
}

/// Whether the result is the failure to persist, with these words.
pub open spec fn fails_to_persist(r: Result<KeyPair, ShareError>, cause: Seq<char>) -> bool {
    match r {
        Ok(_) => false,
        Err(e) => e@ == ShareErrorView::IdentityPersist(cause),
    }
}

/// The holder of the identity. It hands out one and the same key pair for as long as
/// it lives.
pub struct IdentityProvider {
    pub(crate) slot: Option<KeyPair>,
}

impl IdentityProvider {
    /// The secret of the identity that is held, if one is.
    pub closed spec fn held(&self) -> Option<Seq<u8>> {
        slot_secret(self.slot)
    }

    /// A provider that holds no identity yet.
    pub fn new() -> (provider: IdentityProvider)
        ensures
            provider.held().is_none(),
    {
        IdentityProvider { slot: None }
    }

    /// The identity that is held, if one is.
    pub fn cached(&self) -> (r: Option<KeyPair>)
        ensures
            slot_secret(r) == self.held(),
    {
        match &self.slot {
            Some(keys) => Some(keys.duplicate()),
            None => None,
        }
    }

    /// Gives the identity, or makes one. `stored` is what durable storage holds.
    ///
    /// An identity that is held is handed out as it is. Otherwise the stored one is
    /// taken and held, where it is usable. Otherwise a new pair is made; it is not
    /// held before it has been written to durable storage.
    pub fn get_or_create_nostr_keys(&mut self, stored: &Option<StoredKeys>) -> (step: IdentityStep)
        ensures
            match old(self).held() {
                Some(secret) => final(self).held() == Some(secret) && ready_with(step, secret),
                None => match stored_secret(stored_digits(*stored)) {
                    Some(secret) => final(self).held() == Some(secret) && ready_with(step, secret),
                    None => final(self).held().is_none() && asks_to_persist(step),
                },
            },
    {
        if let Some(keys) = &self.slot {
            return IdentityStep::Ready(keys.duplicate());
        }
        match load_nostr_keys(stored) {
            Some(keys) => {
                let copy = keys.duplicate();
                self.slot = Some(keys);
                IdentityStep::Ready(copy)
            },
            None => {
                let candidate = KeyPair::generate();
                let document = save_nostr_keys(&candidate);
                IdentityStep::Persist { candidate, stored: document }
            },
        }
    }

    /// Takes the outcome of writing a new pair to durable storage. Where the write
    /// failed the pair is dropped and the failure reported: nothing is held that a
    /// later start could not load. Where it succeeded the pair is held from now on,
    /// unless an identity is held already, which then stays.
    pub fn confirm_persisted(&mut self, candidate: KeyPair, written: Result<(), String>) -> (r:
        Result<KeyPair, ShareError>)
        ensures
            match written {
                Err(cause) => final(self).held() == old(self).held() && fails_to_persist(r, cause@),
                Ok(()) => match old(self).held() {
                    Some(secret) => final(self).held() == Some(secret) && gives_identity(r, secret),
                    None => final(self).held() == Some(candidate.secret_bytes()) && gives_identity(
                        r,
                        candidate.secret_bytes(),
                    ),
                },
            },
    {
        match written {
            Err(cause) => Err(ShareError::IdentityPersist(cause)),
            Ok(()) => {
                if let Some(keys) = &self.slot {
                    return Ok(keys.duplicate());
                }
                let copy = candidate.duplicate();
                self.slot = Some(candidate);
                Ok(copy)
            },
        }
    }
}

} // verus!
