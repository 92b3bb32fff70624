//! The requests to share an entry and the answers to them.

use vstd::prelude::*;
use crate::codec::is_secret_of;
use crate::codec::is_wrap_failure;
use crate::codec::opens_to;
use crate::codec::unwrap;
use crate::codec::unwrap_outcome;
use crate::codec::wrap;
use crate::codec::UnwrappedView;
use crate::envelope::routing_tags;
use crate::envelope::SealedEnvelope;
use crate::envelope::GIFT_WRAP_KIND;
use crate::error::ShareError;
use crate::error::ShareErrorView;
use crate::error::UnwrapError;
use crate::error::WrapError;
use crate::keys::KeyPair;
use crate::public_id::is_hex_of_len;
use crate::public_id::lower_hex;
use crate::record::record_of_rumor;
use crate::record::rumor_of_event;
use crate::record::DiaryRecord;
use crate::record::DiaryRecordView;
use crate::wire::event_fault;
use crate::wire::event_of_json;
use crate::wire::read_event;
use crate::wire::SignedEvent;
use crate::wire::SignedEventView;

verus! {

/// A request to wrap one stored entry for one recipient.
#[derive(Debug)]
pub struct GiftWrapRequest {
    /// Identifier of the stored entry's event.
    pub nostr_id: String,
    /// Public identifier of the recipient, in hexadecimal digits.
    pub recipient_pubkey: String,
}

/// The envelope made on a request.
#[derive(Debug)]
pub struct GiftWrapResponse {
    /// The envelope as JSON text.
    pub gift_wrap_event: String,
    /// The envelope's identifier.
    pub gift_wrap_id: String,
}

/// One share that was received and opened.
#[derive(Debug)]
pub struct UnwrappedGiftResponse {
    /// Public identifier of the sender.
    pub sender_pubkey: String,
    /// The rumor as JSON text.
    pub gift_wrap_event: String,
}

/// What the store's answer to a lookup comes to: the stored text, or the store's own
/// words behind `Failed to get Nostr event: `.
pub open spec fn lookup_outcome(found: Result<Seq<char>, Seq<char>>) -> Result<
    Seq<char>,
    Seq<char>,
> {
    match found {
        Ok(text) => Ok(text),
        Err(cause) => Err("Failed to get Nostr event: "@ + cause),
    }
}

/// Takes the store's answer to the lookup of an entry's event: the JSON text that it
/// found, or its words on why it found none.
pub fn get_diary_event(found: Result<String, String>) -> (r: Result<String, String>)
    ensures
        match r {
            Ok(text) => lookup_outcome(
                match found {
                    Ok(t) => Ok(t@),
                    Err(c) => Err(c@),
                },
            ) == Ok::<Seq<char>, Seq<char>>(text@),
            Err(text) => lookup_outcome(
                match found {
                    Ok(t) => Ok(t@),
                    Err(c) => Err(c@),
                },
            ) == Err::<Seq<char>, Seq<char>>(text@),
        },
{
    match found {
        Ok(text) => Ok(text),
        Err(cause) => Err(String::from_str("Failed to get Nostr event: ").concat(cause.as_str())),
    }
}

/// The record of a stored event that was asked for as `nostr_id`: the event must
/// carry that identifier, be of the diary kind, and have only pairs as tags.
pub open spec fn stored_event_record(event: SignedEventView, nostr_id: Seq<char>) -> Result<
    DiaryRecordView,
    WrapError,
> {
    if event.id != nostr_id {
        Err(WrapError::WrongEntry)
    } else {
        match record_of_rumor(rumor_of_event(event)) {
            None => Err(WrapError::UnreadableEntry),
            Some(record) => Ok(record),
        }
    }
}

/// Takes the record out of a stored event that was asked for as `nostr_id`. An event
/// under another identifier is refused as `WrongEntry`, one that is no diary entry as
/// `UnreadableEntry`.
pub fn record_of_stored(event: SignedEvent, nostr_id: &str) -> (r: Result<DiaryRecord, WrapError>)
    ensures
        match r {
            Ok(record) => stored_event_record(event@, nostr_id@) == Ok::<
                DiaryRecordView,
                WrapError,
            >(record@),
            Err(fault) => stored_event_record(event@, nostr_id@) == Err::<
                DiaryRecordView,
                WrapError,
            >(fault),
        },
{
    if !event.id.as_str().eq(nostr_id) {
        return Err(WrapError::WrongEntry);
    }
    match event.into_rumor().to_record() {
        None => Err(WrapError::UnreadableEntry),
        Some(record) => Ok(record),
    }
}

/// The record that the store holds under `nostr_id`, where `event_json` is the signed
/// diary event with that identifier and all its tags are pairs; otherwise what is wrong
/// with it.
pub open spec fn stored_record(event_json: Seq<char>, nostr_id: Seq<char>) -> Result<
    DiaryRecordView,
    WrapError,
> {
    match event_of_json(event_json) {
        None => Err(WrapError::UnreadableEntry),
        Some(event) => stored_event_record(event, nostr_id),
    }
}

/// Whether the answer carries an envelope from `sender` to `recipient`: a private-wrap
/// event under the identifier that the answer gives, which names the recipient alone,
/// is signed by another key than the sender's, and whose identifier and signature
/// verify.
pub open spec fn answers_with_envelope(
    response: GiftWrapResponse,
    sender: Seq<char>,
    recipient: Seq<char>,
) -> bool {
    match event_of_json(response.gift_wrap_event@) {
        None => false,
        Some(event) => {
            &&& event.id == response.gift_wrap_id@
            &&& event.kind == GIFT_WRAP_KIND
            &&& event.tags == routing_tags(recipient)
            &&& event.pubkey != sender
            &&& event_fault(response.gift_wrap_event@).is_none()
        },
    }
}

/// Wraps a stored entry for the recipient that the request names. `event_json` is the
/// signed event that the store holds under the identifier of the request.
///
/// The recipient is judged first: a request that names no public identifier ends in
/// `InvalidRecipient` whatever the entry holds. Then the entry: a text that is no diary
/// event ends in `UnreadableEntry`, an event under another identifier in `WrongEntry`.
/// The answer carries an envelope of the private-wrap kind that names the recipient
/// alone, is signed by another key than the sender's, and verifies. Whoever holds the
/// recipient's secret opens it to the sender and to the record of the stored entry.
/// Once recipient and entry are found right, the only failures left are those of
/// wrapping itself.
pub fn gift_wrap_diary(event_json: &str, sender: &KeyPair, request: &GiftWrapRequest) -> (r: Result<
    GiftWrapResponse,
    ShareError,
>)
    ensures
        !is_hex_of_len(request.recipient_pubkey@, 64) <==> (r matches Err(e) && e@
            == ShareErrorView::InvalidRecipient),
        is_hex_of_len(request.recipient_pubkey@, 64) ==> match stored_record(
            event_json@,
            request.nostr_id@,
        ) {
            Err(fault) => r matches Err(e) && e@ == ShareErrorView::Wrap(fault),
            Ok(record) => match r {
                Ok(response) => answers_with_envelope(
                    response,
                    sender.public_hex(),
                    lower_hex(request.recipient_pubkey@),
                ) && delivers(
                    response.gift_wrap_event@,
                    lower_hex(request.recipient_pubkey@),
                    sender.public_hex(),
                    record,
                ),
                Err(e) => is_wrap_failure(e@),
            },
        },
{
    if !crate::public_id::validate_pubkey(request.recipient_pubkey.as_str()) {
        return Err(ShareError::InvalidRecipient);
    }
    let event = match read_event(event_json) {
        None => {
            return Err(ShareError::Wrap(WrapError::UnreadableEntry));
        },
        Some(event) => event,
    };
    let record = match record_of_stored(event, request.nostr_id.as_str()) {
        Err(fault) => {
            return Err(ShareError::Wrap(fault));
        },
        Ok(record) => record,
    };
    let wrapped = wrap(&record, sender, request.recipient_pubkey.as_str())?;
    let envelope = wrapped.envelope;
    let gift_wrap_id = envelope.event().id.clone();
    let gift_wrap_event = String::from_str(envelope.wire());
    proof {
        assert(envelope@ == crate::envelope::SealedEnvelopeView {
            event: envelope@.event,
            wire: envelope@.wire,
        });
        assert forall|secret: Seq<u8>| #[trigger]
            is_secret_of(secret, lower_hex(request.recipient_pubkey@)) implies received_opens_to(
            gift_wrap_event@,
            secret,
            sender.public_hex(),
            record@,
        ) by {
            assert(opens_to(envelope@, secret, sender.public_hex(), record@));
        }
    }
    Ok(GiftWrapResponse { gift_wrap_event, gift_wrap_id })
}

/// Whether opening the received text with `secret` gives `sender` and `record`.
pub open spec fn received_opens_to(
    wire: Seq<char>,
    secret: Seq<u8>,
    sender: Seq<char>,
    record: DiaryRecordView,
) -> bool {
    match received_outcome(wire, secret) {
        Ok(unwrapped) => unwrapped.sender == sender && unwrapped.record == record,
        Err(_) => false,
    }
}

/// Whether the text is delivered to `recipient`: whoever holds the secret of that
/// public identifier opens it to `sender` and `record`.
pub open spec fn delivers(
    wire: Seq<char>,
    recipient: Seq<char>,
    sender: Seq<char>,
    record: DiaryRecordView,
) -> bool {
    forall|secret: Seq<u8>| #[trigger]
        is_secret_of(secret, recipient) ==> received_opens_to(wire, secret, sender, record)
}

/// What opening one received text with `secret` comes to.
pub open spec fn received_outcome(wire: Seq<char>, secret: Seq<u8>) -> Result<
    UnwrappedView,
    UnwrapError,
> {
    match event_of_json(wire) {
        None => Err(UnwrapError::NotAnEnvelope),
        Some(event) => unwrap_outcome(
            crate::envelope::SealedEnvelopeView { event, wire },
            secret,
        ),
    }
}

/// Opens one received event, given as JSON text, into the answer for it.
pub fn open_received(wire: &str, recipient: &KeyPair) -> (r: Result<
    UnwrappedGiftResponse,
    UnwrapError,
>)
    ensures
        match r {
            Ok(response) => received_outcome(wire@, recipient.secret_bytes()) matches Ok(unwrapped)
                && response.sender_pubkey@ == unwrapped.sender && response.gift_wrap_event@
                == unwrapped.rumor_wire,
            Err(fault) => received_outcome(wire@, recipient.secret_bytes()) == Err::<
                UnwrappedView,
                UnwrapError,
            >(fault),
        },
{
    let envelope = match SealedEnvelope::from_wire(wire) {
        None => {
            return Err(UnwrapError::NotAnEnvelope);
        },
        Some(envelope) => envelope,
    };
    proof {
        assert(envelope@ == crate::envelope::SealedEnvelopeView {
            event: envelope@.event,
            wire: envelope@.wire,
        });
    }
    match unwrap(&envelope, recipient) {
        Err(fault) => Err(fault),
        Ok(unwrapped) => Ok(
            UnwrappedGiftResponse {
                sender_pubkey: unwrapped.sender.to_hex(),
                gift_wrap_event: unwrapped.rumor_wire,
            },
        ),
    }
}

} // verus!
