//! The outer envelope of a private share, and the rules that one must meet before it
//! leaves: it names the recipient and nobody else, it is signed by a throwaway key,
//! and its declared time lies in the two days before its making.

use vstd::prelude::*;
use crate::error::WrapError;
use crate::public_id::PublicId;
use crate::wire::event_of_json;
use crate::wire::read_event;
use crate::wire::tag_view;
use crate::wire::SignedEvent;
use crate::wire::SignedEventView;

verus! {

/// Kind of the events that are private-wrap containers.
pub const GIFT_WRAP_KIND: u16 = 1059;

/// Width of the window from which an envelope's declared time is drawn: two days.
pub const OBFUSCATION_WINDOW_SECS: u64 = 172800;

/// The tags of an envelope for `recipient`: one tag, `["p", recipient]`.
pub open spec fn routing_tags(recipient: Seq<char>) -> Seq<Seq<Seq<char>>> {
    seq![seq!["p"@, recipient]]
}

/// Whether `declared` lies less than two days before `not_before` and not after
/// `not_after`.
pub open spec fn in_obfuscation_window(declared: u64, not_before: u64, not_after: u64) -> bool {
    not_before - OBFUSCATION_WINDOW_SECS < declared && declared <= not_after
}

/// What is wrong with an event as the envelope from `sender` to `recipient`, made
/// between the clock readings `not_before` and `not_after`; `Ok` where nothing is.
pub open spec fn envelope_verdict(
    event: SignedEventView,
    sender: Seq<char>,
    recipient: Seq<char>,
    not_before: u64,
    not_after: u64,
) -> Result<(), WrapError> {
    if event.kind != GIFT_WRAP_KIND {
        Err(WrapError::WrongKind)
    } else if event.tags != routing_tags(recipient) {
        Err(WrapError::WrongRouting)
    } else if event.pubkey == sender {
        Err(WrapError::SenderExposed)
    } else if !in_obfuscation_window(event.created_at, not_before, not_after) {
        Err(WrapError::TimestampOutOfWindow)
    } else {
        Ok(())
    }
}

/// Whether the tags are the single routing tag of `recipient`.
fn is_routed_to(event: &SignedEvent, recipient: &PublicId) -> (r: bool)
    ensures
        r == (event@.tags == routing_tags(recipient@)),
{
    if event.tags.len() != 1 {
        proof {
            assert(routing_tags(recipient@).len() == 1);
            assert(event@.tags.len() == event.tags@.len());
        }
        return false;
    }
    let tag = &event.tags[0];
    proof {
        assert(event@.tags[0] == tag_view(*tag));
        assert(routing_tags(recipient@)[0] == seq!["p"@, recipient@]);
    }
    if tag.len() != 2 {
        proof {
            assert(seq!["p"@, recipient@].len() == 2);
            assert(tag_view(*tag).len() == tag@.len());
        }
        return false;
    }
    proof {
        assert(tag_view(*tag)[0] == tag@[0]@);
        assert(tag_view(*tag)[1] == tag@[1]@);
        assert(seq!["p"@, recipient@][0] == "p"@);
        assert(seq!["p"@, recipient@][1] == recipient@);
    }
    let r = tag[0].as_str().eq("p") && tag[1].as_str().eq(recipient.as_str());
    proof {
        if r {
            assert(tag_view(*tag) =~= seq!["p"@, recipient@]);
            assert(event@.tags =~= routing_tags(recipient@));
        }
    }
    r
}

/// Judges an event as the envelope from `sender` to `recipient`, made between two
/// readings of the clock.
pub fn confirm_envelope(
    event: &SignedEvent,
    sender: &PublicId,
    recipient: &PublicId,
    not_before: u64,
    not_after: u64,
) -> (r: Result<(), WrapError>)
    ensures
        r == envelope_verdict(event@, sender@, recipient@, not_before, not_after),
{
    if event.kind != GIFT_WRAP_KIND {
        return Err(WrapError::WrongKind);
    }
    if !is_routed_to(event, recipient) {
        return Err(WrapError::WrongRouting);
    }
    if event.pubkey.as_str().eq(sender.as_str()) {
        return Err(WrapError::SenderExposed);
    }
    let late_enough = not_before < OBFUSCATION_WINDOW_SECS || event.created_at > not_before
        - OBFUSCATION_WINDOW_SECS;
    if !late_enough || event.created_at > not_after {
        return Err(WrapError::TimestampOutOfWindow);
    }
    Ok(())
}

/// An envelope: a signed event together with the JSON text that is sent for it.
#[derive(Debug)]
pub struct SealedEnvelope {
    pub(crate) event: SignedEvent,
    pub(crate) wire: String,
}

/// The mathematical value of a `SealedEnvelope`.
pub struct SealedEnvelopeView {
    pub event: SignedEventView,
    pub wire: Seq<char>,
}

impl View for SealedEnvelope {
    type V = SealedEnvelopeView;

    closed spec fn view(&self) -> SealedEnvelopeView {
        SealedEnvelopeView { event: self.event@, wire: self.wire@ }
    }
}

impl SealedEnvelope {
    #[verifier::type_invariant]
    spec fn consistent(&self) -> bool {
        event_of_json(self.wire@) == Some(self.event@)
    }

    /// Reads an envelope from the JSON text of a signed event. `None` where the text
    /// is not a signed event.
    pub fn from_wire(json: &str) -> (r: Option<SealedEnvelope>)
        ensures
            r.is_some() <==> event_of_json(json@).is_some(),
            r matches Some(envelope) ==> envelope@.wire == json@ && event_of_json(json@) == Some(
                envelope@.event,
            ),
    {
        match read_event(json) {
            Some(event) => Some(SealedEnvelope { event, wire: String::from_str(json) }),
            None => None,
        }
    }

    /// The signed event. It is the event that the envelope's text denotes.
    pub fn event(&self) -> (event: &SignedEvent)
        ensures
            event@ == self@.event,
            event_of_json(self@.wire) == Some(self@.event),
    {
        proof {
            use_type_invariant(self);
        }
        &self.event
    }

    /// The JSON text that is sent for the envelope.
    pub fn wire(&self) -> (text: &str)
        ensures
            text@ == self@.wire,
    {
        self.wire.as_str()
    }
}

} // verus!
