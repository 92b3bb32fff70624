//! Building and opening the three layers of a private share: the rumor, the seal
//! around it, and the envelope around the seal.

use vstd::prelude::*;
use futures::FutureExt;
use nostr_sdk::nips::nip44;
use nostr_sdk::EventBuilder;
use nostr_sdk::JsonUtil;
use nostr_sdk::Keys;
use nostr_sdk::PublicKey;
use nostr_sdk::SecretKey;
use nostr_sdk::Tags;
use nostr_sdk::UnsignedEvent;
use crate::envelope::confirm_envelope;
use crate::envelope::envelope_verdict;
use crate::envelope::SealedEnvelope;
use crate::envelope::SealedEnvelopeView;
use crate::envelope::GIFT_WRAP_KIND;
use crate::envelope::OBFUSCATION_WINDOW_SECS;
use crate::error::ShareError;
use crate::error::ShareErrorView;
use crate::error::UnwrapError;
use crate::error::WrapError;
use crate::keys::public_id_of_secret;
use crate::keys::secret_is_usable;
use crate::keys::KeyPair;
use crate::public_id::is_hex_of_len;
use crate::public_id::is_lower_hex_of_len;
use crate::public_id::lower_hex;
use crate::public_id::PublicId;
use crate::record::lemma_rumor_keeps_record;
use crate::record::read_rumor;
use crate::record::record_of_rumor;
use crate::record::rumor_of_json;
use crate::record::rumor_of_record;
use crate::record::DiaryRecord;
use crate::record::DiaryRecordView;
use crate::record::Rumor;
use crate::record::RumorView;
use crate::wire::event_fault;
use crate::wire::event_of_json;
use crate::wire::read_event;
use crate::wire::verify_event;
use crate::wire::SignedEventView;

verus! {

/// Calls `nostr_sdk::Timestamp::now`: the system clock in seconds since 1970, zero
/// where the clock stands before that.
#[verifier::external_body]
pub(crate) fn clock_seconds() -> (now: u64) {
    nostr_sdk::Timestamp::now().as_u64()
}

/// Calls `gen_range` on `rand::thread_rng()`, which draws a number from `0..bound`.
#[verifier::external_body]
pub(crate) fn random_below(bound: u64) -> (n: u64)
    requires
        bound > 0,
    ensures
        n < bound,
{
    rand::Rng::gen_range(&mut rand::thread_rng(), 0..bound)
}

/// The time `offset` seconds before `now`, or the beginning of time where that would
/// lie before it.
pub fn past_timestamp(now: u64, offset: u64) -> (t: u64)
    ensures
        t == if offset <= now {
            now - offset
        } else {
            0
        },
{
    if offset <= now {
        now - offset
    } else {
        0
    }
}

/// Draws a time from the two days that end at `now`, to be declared in place of the
/// true one.
pub fn random_past_timestamp(now: u64) -> (t: u64)
    ensures
        now - OBFUSCATION_WINDOW_SECS < t && t <= now,
{
    let offset = random_below(OBFUSCATION_WINDOW_SECS);
    past_timestamp(now, offset)
}

/// Length of the shortest text that is an encrypted layer: version, nonce, the
/// smallest padded message and the authentication code, in base64.
pub const MIN_PAYLOAD_LEN: usize = 132;

/// The text that an encrypted layer holds for the owner of `secret`, where `signer` is
/// the other side of the conversation; `None` where it does not decrypt. It is what
/// `nostr_sdk::nips::nip44::decrypt` makes of the payload with that secret and the
/// public key of `signer`.
pub uninterp spec fn layer_decrypted(secret: Seq<u8>, signer: Seq<char>, payload: Seq<char>) -> Option<
    Seq<char>,
>;

/// Calls `nostr_sdk::nips::nip44::decrypt` with the recipient's secret, the public key
/// that `signer` names and the payload. The result is `layer_decrypted` of the three.
/// The payload must be as long as the shortest encrypted layer: on a shorter one that
/// carries a valid authentication code the call reads past the end of its buffer.
#[verifier::external_body]
pub(crate) fn decrypt_layer(recipient: &KeyPair, signer: &str, payload: &str) -> (r: Option<String>)
    requires
        payload@.len() >= MIN_PAYLOAD_LEN,
    ensures
        r.is_some() == layer_decrypted(recipient.secret_bytes(), signer@, payload@).is_some(),
        r matches Some(text) ==> layer_decrypted(recipient.secret_bytes(), signer@, payload@)
            == Some(text@),
{
    let key = SecretKey::from_slice(&recipient.secret).ok()?;
    let from = PublicKey::from_hex(signer).ok()?;
    nip44::decrypt(&key, &from, payload).ok()
}

/// The text inside an encrypted layer, for the owner of `secret`: `None` where the
/// payload is shorter than any encrypted layer, or does not decrypt.
pub open spec fn layer_opened(secret: Seq<u8>, signer: Seq<char>, payload: Seq<char>) -> Option<
    Seq<char>,
> {
    if payload.len() < MIN_PAYLOAD_LEN {
        None
    } else {
        layer_decrypted(secret, signer, payload)
    }
}

/// Opens one encrypted layer with the recipient's keys. A payload that is shorter than
/// any encrypted layer is turned away before it is handed to the decryption.
pub fn open_layer(recipient: &KeyPair, signer: &str, payload: &str) -> (r: Option<String>)
    ensures
        r.is_some() == layer_opened(recipient.secret_bytes(), signer@, payload@).is_some(),
        r matches Some(text) ==> layer_opened(recipient.secret_bytes(), signer@, payload@) == Some(
            text@,
        ),
{
    if payload.unicode_len() < MIN_PAYLOAD_LEN {
        None
    } else {
        decrypt_layer(recipient, signer, payload)
    }
}

/// Whether `secret` is the secret of the owner of `id`: a usable secret from which
/// that public identifier is derived.
pub open spec fn is_secret_of(secret: Seq<u8>, id: Seq<char>) -> bool {
    secret_is_usable(secret) && public_id_of_secret(secret) == id
}

/// Whether the text is an envelope that carries `rumor` from `sender` to the owner of
/// `secret`: its content opens with the secret to a seal whose identifier and
/// signature verify and whose signer is `sender`, and the seal's content opens to a
/// text that denotes `rumor`.
pub open spec fn carries(wire: Seq<char>, secret: Seq<u8>, sender: Seq<char>, rumor: RumorView) -> bool {
    match event_of_json(wire) {
        None => false,
        Some(envelope) => match layer_opened(secret, envelope.pubkey, envelope.content) {
            None => false,
            Some(seal_wire) => match event_of_json(seal_wire) {
                None => false,
                Some(seal) => event_fault(seal_wire).is_none() && seal.pubkey == sender
                    && match layer_opened(secret, sender, seal.content) {
                    None => false,
                    Some(rumor_wire) => rumor_of_json(rumor_wire) == Some(rumor),
                },
            },
        },
    }
}

/// Calls `nostr_sdk::EventBuilder::gift_wrap` on the rumor, with the sender's keys as
/// signer and no extra tags, and gives the JSON text of the event that it returns;
/// `None` where the call, or making one of its arguments, fails. The future that the
/// call returns is polled once by `futures::FutureExt::now_or_never`; with keys as
/// signer it is ready then.
///
/// The call draws a throwaway key, two nonces and two declared times by chance, so
/// the text is not named. What holds of every text that comes back is what the call
/// is for: it encrypts the rumor for the recipient under the sender's key, signs that
/// as the seal with the sender's key, and encrypts the seal for the recipient under
/// the throwaway key. So whoever holds the secret of the recipient opens the envelope
/// to a seal that verifies and is signed by the sender, and the seal to the rumor.
#[verifier::external_body]
pub(crate) fn seal_and_wrap(rumor: &Rumor, sender: &KeyPair, recipient: &PublicId) -> (r: Option<
    String,
>)
    requires
        is_lower_hex_of_len(rumor.author@, 64),
    ensures
        r matches Some(wire) ==> forall|secret: Seq<u8>| #[trigger]
            is_secret_of(secret, recipient@) ==> carries(
                wire@,
                secret,
                sender.public_hex(),
                rumor@,
            ),
{
    let signer = Keys::new(SecretKey::from_slice(&sender.secret).ok()?);
    let author = PublicKey::from_hex(&rumor.author).ok()?;
    let to = PublicKey::from_hex(&recipient.hex).ok()?;
    let tags = Tags::parse(rumor.tags.clone()).ok()?;
    let text = rumor.content.clone();
    let unsigned = UnsignedEvent::new(author, rumor.created_at.into(), rumor.kind.into(), tags, text);
    EventBuilder::gift_wrap(&signer, &to, unsigned, []).now_or_never()?.ok()?.try_as_json().ok()
}

/// An envelope with the two readings of the clock between which it was made.
#[derive(Debug)]
pub struct Wrapped {
    pub envelope: SealedEnvelope,
    pub not_before: u64,
    pub not_after: u64,
}

/// What becomes of a text handed back as the envelope from `sender` to `recipient`:
/// the event that it denotes, where that event passes as the envelope and its
/// identifier and signature verify.
pub open spec fn envelope_accepted(
    wire: Seq<char>,
    sender: Seq<char>,
    recipient: Seq<char>,
    not_before: u64,
    not_after: u64,
) -> Result<SignedEventView, WrapError> {
    match event_of_json(wire) {
        None => Err(WrapError::UnreadableEnvelope),
        Some(event) => match envelope_verdict(event, sender, recipient, not_before, not_after) {
            Err(fault) => Err(fault),
            Ok(()) => if event_fault(wire).is_some() {
                Err(WrapError::Unverified)
            } else {
                Ok(event)
            },
        },
    }
}

/// Takes the text that was made as the envelope from `sender` to `recipient` between
/// two readings of the clock, and lets it pass only where it is one: a private-wrap
/// event that names the recipient alone, is not signed by the sender, declares a time
/// in the two days before its making, and carries an identifier and a signature that
/// verify.
pub fn accept_envelope(
    wire: &str,
    sender: &PublicId,
    recipient: &PublicId,
    not_before: u64,
    not_after: u64,
) -> (r: Result<SealedEnvelope, WrapError>)
    ensures
        match r {
            Ok(envelope) => envelope@.wire == wire@ && envelope_accepted(
                wire@,
                sender@,
                recipient@,
                not_before,
                not_after,
            ) == Ok::<SignedEventView, WrapError>(envelope@.event),
            Err(fault) => envelope_accepted(wire@, sender@, recipient@, not_before, not_after)
                == Err::<SignedEventView, WrapError>(fault),
        },
{
    match SealedEnvelope::from_wire(wire) {
        None => Err(WrapError::UnreadableEnvelope),
        Some(envelope) => {
            match confirm_envelope(envelope.event(), sender, recipient, not_before, not_after) {
                Err(fault) => Err(fault),
                Ok(()) => match verify_event(wire) {
                    Some(_) => Err(WrapError::Unverified),
                    None => Ok(envelope),
                },
            }
        },
    }
}

/// Wraps a record for one recipient: the rumor with the record's true time and the
/// sender as author, the seal around it, the envelope around the seal.
///
/// A recipient that is not a public identifier is refused before anything is
/// encrypted. An envelope is handed out only where it names the recipient alone, is
/// signed by another key than the sender's, verifies, and declares a time less than
/// two days before the first reading of the clock and not after the second. Whoever
/// holds the recipient's secret opens it to the sender and to this very record, its
/// true time included. The failures are those of the sealing and of the envelope,
/// never those of a stored entry.
pub fn wrap(record: &DiaryRecord, sender: &KeyPair, recipient: &str) -> (r: Result<
    Wrapped,
    ShareError,
>)
    ensures
        !is_hex_of_len(recipient@, 64) <==> (r matches Err(e) && e@
            == ShareErrorView::InvalidRecipient),
        r matches Err(e) ==> e@ == ShareErrorView::InvalidRecipient || is_wrap_failure(e@),
        r matches Ok(wrapped) ==> envelope_accepted(
            wrapped.envelope@.wire,
            sender.public_hex(),
            lower_hex(recipient@),
            wrapped.not_before,
            wrapped.not_after,
        ) == Ok::<SignedEventView, WrapError>(wrapped.envelope@.event),
        r matches Ok(wrapped) ==> forall|secret: Seq<u8>| #[trigger]
            is_secret_of(secret, lower_hex(recipient@)) ==> opens_to(
                wrapped.envelope@,
                secret,
                sender.public_hex(),
                record@,
            ),
{
    let recipient_id = match PublicId::parse(recipient) {
        Some(id) => id,
        None => {
            return Err(ShareError::InvalidRecipient);
        },
    };
    let sender_id = sender.public_id();
    let rumor = record.to_rumor(sender_id.as_str());
    let not_before = clock_seconds();
    let wire = match seal_and_wrap(&rumor, sender, &recipient_id) {
        Some(wire) => wire,
        None => {
            return Err(ShareError::Wrap(WrapError::Sealing));
        },
    };
    let not_after = clock_seconds();
    match accept_envelope(wire.as_str(), sender_id, &recipient_id, not_before, not_after) {
        Ok(envelope) => {
            proof {
                assert forall|secret: Seq<u8>| #[trigger]
                    is_secret_of(secret, lower_hex(recipient@)) implies opens_to(
                    envelope@,
                    secret,
                    sender.public_hex(),
                    record@,
                ) by {
                    lemma_carried_record_comes_out(
                        envelope@,
                        secret,
                        sender.public_hex(),
                        record@,
                    );
                }
            }
            Ok(Wrapped { envelope, not_before, not_after })
        },
        Err(fault) => Err(ShareError::Wrap(fault)),
    }
}

/// Whether the failure is one of wrapping itself: of the sealing or of the envelope
/// that came back, not of the stored entry.
pub open spec fn is_wrap_failure(e: ShareErrorView) -> bool {
    match e {
        ShareErrorView::Wrap(fault) => fault != WrapError::UnreadableEntry && fault
            != WrapError::WrongEntry,
        _ => false,
    }
}

/// Whether opening `envelope` with `secret` gives `sender` and `record`.
pub open spec fn opens_to(
    envelope: SealedEnvelopeView,
    secret: Seq<u8>,
    sender: Seq<char>,
    record: DiaryRecordView,
) -> bool {
    match unwrap_outcome(envelope, secret) {
        Ok(unwrapped) => unwrapped.sender == sender && unwrapped.record == record,
        Err(_) => false,
    }
}

/// What an envelope held: who sent it, the record, and the rumor as JSON text.
#[derive(Debug)]
pub struct Unwrapped {
    pub sender: PublicId,
    pub record: DiaryRecord,
    pub rumor_wire: String,
}

/// The mathematical value of an `Unwrapped`.
pub struct UnwrappedView {
    pub sender: Seq<char>,
    pub record: DiaryRecordView,
    pub rumor_wire: Seq<char>,
}

impl View for Unwrapped {
    type V = UnwrappedView;

    open spec fn view(&self) -> UnwrappedView {
        UnwrappedView { sender: self.sender@, record: self.record@, rumor_wire: self.rumor_wire@ }
    }
}

/// What becomes of a rumor that came out of a seal signed by `sender`: its record,
/// where it is a diary entry that names `sender` as its author.
pub open spec fn rumor_judged(sender: Seq<char>, rumor: RumorView) -> Result<
    DiaryRecordView,
    UnwrapError,
> {
    if rumor.author != sender {
        Err(UnwrapError::AuthorMismatch)
    } else {
        match record_of_rumor(rumor) {
            None => Err(UnwrapError::MalformedRumor),
            Some(record) => Ok(record),
        }
    }
}

/// Judges a rumor that came out of a seal signed by `sender`, and gives its record
/// only where it is a diary entry by that signer whose tags are all pairs.
pub fn judge_rumor(sender: &PublicId, rumor: &Rumor) -> (r: Result<DiaryRecord, UnwrapError>)
    ensures
        match r {
            Ok(record) => rumor_judged(sender@, rumor@) == Ok::<DiaryRecordView, UnwrapError>(
                record@,
            ),
            Err(fault) => rumor_judged(sender@, rumor@) == Err::<DiaryRecordView, UnwrapError>(
                fault,
            ),
        },
{
    if !rumor.author.as_str().eq(sender.as_str()) {
        return Err(UnwrapError::AuthorMismatch);
    }
    match rumor.to_record() {
        Some(record) => Ok(record),
        None => Err(UnwrapError::MalformedRumor),
    }
}

/// What becomes of the text that came out of a seal signed by `sender`: where it is
/// a rumor, what `rumor_judged` makes of it.
pub open spec fn rumor_accepted(sender: Seq<char>, rumor_wire: Seq<char>) -> Result<
    UnwrappedView,
    UnwrapError,
> {
    match rumor_of_json(rumor_wire) {
        None => Err(UnwrapError::MalformedRumor),
        Some(rumor) => match rumor_judged(sender, rumor) {
            Err(fault) => Err(fault),
            Ok(record) => Ok(UnwrappedView { sender, record, rumor_wire }),
        },
    }
}

/// Takes what came out of an envelope, the signer of the seal and the rumor as JSON
/// text, and lets it pass only where the text is a rumor that `judge_rumor` lets pass.
pub fn accept_rumor(sender: PublicId, rumor_wire: String) -> (r: Result<Unwrapped, UnwrapError>)
    ensures
        match r {
            Ok(unwrapped) => rumor_accepted(sender@, rumor_wire@) == Ok::<
                UnwrappedView,
                UnwrapError,
            >(unwrapped@),
            Err(fault) => rumor_accepted(sender@, rumor_wire@) == Err::<
                UnwrappedView,
                UnwrapError,
            >(fault),
        },
{
    let rumor = match read_rumor(rumor_wire.as_str()) {
        Some(rumor) => rumor,
        None => {
            return Err(UnwrapError::MalformedRumor);
        },
    };
    match judge_rumor(&sender, &rumor) {
        Ok(record) => Ok(Unwrapped { sender, record, rumor_wire }),
        Err(fault) => Err(fault),
    }
}

/// What the text inside an envelope comes to: it must be a signed event, the seal,
/// whose identifier and signature verify, and whose content opens to a rumor by the
/// seal's signer.
pub open spec fn seal_outcome(seal_wire: Seq<char>, secret: Seq<u8>) -> Result<
    UnwrappedView,
    UnwrapError,
> {
    match event_of_json(seal_wire) {
        None => Err(UnwrapError::SealRejected),
        Some(seal) => if event_fault(seal_wire).is_some() {
            Err(UnwrapError::SealRejected)
        } else {
            match layer_opened(secret, seal.pubkey, seal.content) {
                None => Err(UnwrapError::Undecryptable),
                Some(rumor_wire) => rumor_accepted(seal.pubkey, rumor_wire),
            }
        },
    }
}

/// What opening `envelope` with `secret` comes to: it must be of the private-wrap
/// kind, its content must open to a seal, and the seal to a rumor.
pub open spec fn unwrap_outcome(envelope: SealedEnvelopeView, secret: Seq<u8>) -> Result<
    UnwrappedView,
    UnwrapError,
> {
    if envelope.event.kind != GIFT_WRAP_KIND {
        Err(UnwrapError::NotAnEnvelope)
    } else {
        match layer_opened(secret, envelope.event.pubkey, envelope.event.content) {
            None => Err(UnwrapError::Undecryptable),
            Some(seal_wire) => seal_outcome(seal_wire, secret),
        }
    }
}

/// Opens a seal, given as the JSON text that came out of an envelope: reads it,
/// verifies identifier and signature, decrypts its content and judges the rumor.
pub fn open_seal(seal_wire: &str, recipient: &KeyPair) -> (r: Result<Unwrapped, UnwrapError>)
    ensures
        match r {
            Ok(unwrapped) => seal_outcome(seal_wire@, recipient.secret_bytes()) == Ok::<
                UnwrappedView,
                UnwrapError,
            >(unwrapped@),
            Err(fault) => seal_outcome(seal_wire@, recipient.secret_bytes()) == Err::<
                UnwrappedView,
                UnwrapError,
            >(fault),
        },
{
    let seal = match read_event(seal_wire) {
        Some(seal) => seal,
        None => {
            return Err(UnwrapError::SealRejected);
        },
    };
    if verify_event(seal_wire).is_some() {
        return Err(UnwrapError::SealRejected);
    }
    match open_layer(recipient, seal.pubkey.as_str(), seal.content.as_str()) {
        None => Err(UnwrapError::Undecryptable),
        Some(rumor_wire) => accept_rumor(PublicId::from_canonical(seal.pubkey), rumor_wire),
    }
}

/// Opens an envelope with the recipient's keys: decrypts the envelope, verifies and
/// decrypts the seal, and reads the rumor. The result depends on the envelope and the
/// keys alone.
pub fn unwrap(envelope: &SealedEnvelope, recipient: &KeyPair) -> (r: Result<Unwrapped, UnwrapError>)
    ensures
        match r {
            Ok(unwrapped) => unwrap_outcome(envelope@, recipient.secret_bytes()) == Ok::<
                UnwrappedView,
                UnwrapError,
            >(unwrapped@),
            Err(fault) => unwrap_outcome(envelope@, recipient.secret_bytes()) == Err::<
                UnwrappedView,
                UnwrapError,
            >(fault),
        },
{
    let event = envelope.event();
    if event.kind != GIFT_WRAP_KIND {
        return Err(UnwrapError::NotAnEnvelope);
    }
    match open_layer(recipient, event.pubkey.as_str(), event.content.as_str()) {
        None => Err(UnwrapError::Undecryptable),
        Some(seal_wire) => open_seal(seal_wire.as_str(), recipient),
    }
}

/// The record that was put into an envelope is the record that comes out: where an
/// envelope of the private-wrap kind carries the rumor made of `record` for `sender`,
/// opening it gives exactly `sender` and `record`.
pub proof fn lemma_carried_record_comes_out(
    envelope: SealedEnvelopeView,
    secret: Seq<u8>,
    sender: Seq<char>,
    record: DiaryRecordView,
)
    requires
        envelope.event.kind == GIFT_WRAP_KIND,
        event_of_json(envelope.wire) == Some(envelope.event),
        carries(envelope.wire, secret, sender, rumor_of_record(record, sender)),
    ensures
        opens_to(envelope, secret, sender, record),
{
    lemma_rumor_keeps_record(record, sender);
}

/// The round trip: an envelope that was wrapped for a public identifier, as `wrap`
/// states it, opens with the secret of that identifier to the sender and the record
/// that were wrapped.
pub proof fn lemma_round_trip(
    envelope: SealedEnvelopeView,
    recipient: Seq<char>,
    secret: Seq<u8>,
    sender: Seq<char>,
    record: DiaryRecordView,
)
    requires
        is_lower_hex_of_len(recipient, 64),
        is_secret_of(secret, recipient),
        forall|other: Seq<u8>| #[trigger]
            is_secret_of(other, lower_hex(recipient)) ==> opens_to(envelope, other, sender, record),
    ensures
        opens_to(envelope, secret, sender, record),
{
    assert(lower_hex(recipient) =~= recipient);
}

} // verus!
