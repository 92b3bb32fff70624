//! Sending an envelope to a relay, and opening what a relay returned: each event on
//! its own, so that one that does not open costs the others nothing.

use vstd::prelude::*;
use crate::envelope::SealedEnvelope;
use crate::error::ShareError;
use crate::error::ShareErrorView;
use crate::error::UnwrapError;
use crate::error::WrapError;
use crate::keys::KeyPair;
use crate::relay::Gateway;
use crate::relay::GatewayState;
use crate::relay::GatewayView;
use crate::relay::RelayRequest;
use crate::relay::RelayRequestView;
use crate::share::open_received;
use crate::share::received_outcome;
use crate::share::UnwrappedGiftResponse;
use crate::wire::event_of_json;
use crate::wire::names_view;

verus! {

/// Seconds that a query for envelopes waits for the relay.
pub const FETCH_TIMEOUT_SECS: u64 = 30;

/// Prepares the sending of an envelope, given as JSON text, to a relay. A text that is
/// no signed event is refused before any connection is made.
pub fn share_gift_wrap(gift_wrap_json: &str, relay_url: &str) -> (r: Result<Gateway, ShareError>)
    ensures
        r.is_ok() <==> event_of_json(gift_wrap_json@).is_some(),
        r matches Err(e) ==> e@ == ShareErrorView::Wrap(WrapError::UnreadableEnvelope),
        r matches Ok(gateway) ==> gateway@ == (GatewayView {
            state: GatewayState::Disconnected,
            request: RelayRequestView::Send { relay_url: relay_url@, envelope: gift_wrap_json@ },
            result: None,
        }),
{
    match SealedEnvelope::from_wire(gift_wrap_json) {
        None => Err(ShareError::Wrap(WrapError::UnreadableEnvelope)),
        Some(envelope) => Ok(
            Gateway::new(
                RelayRequest::Send {
                    relay_url: String::from_str(relay_url),
                    envelope: String::from_str(envelope.wire()),
                },
            ),
        ),
    }
}

/// Prepares the query for the envelopes addressed to `recipient` on a relay.
pub fn fetch_request(relay_url: &str, recipient: &KeyPair, timeout_secs: u64) -> (gateway: Gateway)
    ensures
        gateway@ == (GatewayView {
            state: GatewayState::Disconnected,
            request: RelayRequestView::Query {
                relay_url: relay_url@,
                recipient: recipient.public_hex(),
                timeout_secs,
            },
            result: None,
        }),
{
    Gateway::new(
        RelayRequest::Query {
            relay_url: String::from_str(relay_url),
            recipient: recipient.public_id().to_hex(),
            timeout_secs,
        },
    )
}

/// An event of a batch that did not open, by its place in the batch, and why.
#[derive(Debug)]
pub struct BatchFailure {
    pub index: usize,
    pub fault: UnwrapError,
}

/// What a batch of received events came to.
#[derive(Debug)]
pub struct Batch {
    /// The shares that opened, in the order in which their events stood.
    pub opened: Vec<UnwrappedGiftResponse>,
    /// The events that did not open.
    pub failed: Vec<BatchFailure>,
}

/// Sender and rumor of each answer.
pub open spec fn responses_view(responses: Vec<UnwrappedGiftResponse>) -> Seq<
    (Seq<char>, Seq<char>),
> {
    Seq::new(
        responses@.len(),
        |i: int| (responses@[i].sender_pubkey@, responses@[i].gift_wrap_event@),
    )
}

/// Sender and rumor of each event that opens with `secret`, in the order of the
/// events.
pub open spec fn opened_of(wires: Seq<Seq<char>>, secret: Seq<u8>) -> Seq<(Seq<char>, Seq<char>)>
    decreases wires.len(),
{
    if wires.len() == 0 {
        Seq::empty()
    } else {
        let prior = opened_of(wires.drop_last(), secret);
        match received_outcome(wires.last(), secret) {
            Ok(unwrapped) => prior.push((unwrapped.sender, unwrapped.rumor_wire)),
            Err(_) => prior,
        }
    }
}

/// Place and fault of each event that does not open with `secret`, in the order of
/// the events.
pub open spec fn failed_of(wires: Seq<Seq<char>>, secret: Seq<u8>) -> Seq<BatchFailure>
    decreases wires.len(),
{
    if wires.len() == 0 {
        Seq::empty()
    } else {
        let prior = failed_of(wires.drop_last(), secret);
        match received_outcome(wires.last(), secret) {
            Ok(_) => prior,
            Err(fault) => prior.push(BatchFailure { index: (wires.len() - 1) as usize, fault }),
        }
    }
}

/// Every event of a batch is accounted for: it opened, or it is reported with its
/// fault. None is lost and none stops the others.
pub proof fn lemma_batch_accounts_for_every_event(wires: Seq<Seq<char>>, secret: Seq<u8>)
    requires
        wires.len() <= usize::MAX,
    ensures
        opened_of(wires, secret).len() + failed_of(wires, secret).len() == wires.len(),
        forall|i: int|
            0 <= i < failed_of(wires, secret).len() ==> 0 <= (#[trigger] failed_of(
                wires,
                secret,
            )[i]).index < wires.len() && received_outcome(
                wires[failed_of(wires, secret)[i].index as int],
                secret,
            ) == Err::<crate::codec::UnwrappedView, UnwrapError>(failed_of(wires, secret)[i].fault),
    decreases wires.len(),
{
    if wires.len() > 0 {
        let shorter = wires.drop_last();
        lemma_batch_accounts_for_every_event(shorter, secret);
        let failed = failed_of(wires, secret);
        assert forall|i: int| 0 <= i < failed.len() implies 0 <= (#[trigger] failed[i]).index
            < wires.len() && received_outcome(wires[failed[i].index as int], secret) == Err::<
            crate::codec::UnwrappedView,
            UnwrapError,
        >(failed[i].fault) by {
            if i < failed_of(shorter, secret).len() {
                assert(failed[i] == failed_of(shorter, secret)[i]);
                assert(shorter[failed[i].index as int] == wires[failed[i].index as int]);
            } else {
                assert(failed[i].index == wires.len() - 1);
                assert(wires.last() == wires[wires.len() - 1]);
            }
        }
    }
}

/// A batch of one event: where the event opens, the batch holds its sender and its
/// rumor and reports nothing; where it does not, the batch holds nothing of it and
/// reports the one failure.
pub proof fn lemma_batch_of_one(wire: Seq<char>, secret: Seq<u8>)
    ensures
        match received_outcome(wire, secret) {
            Ok(unwrapped) => opened_of(seq![wire], secret) == seq![
                (unwrapped.sender, unwrapped.rumor_wire),
            ] && failed_of(seq![wire], secret).len() == 0,
            Err(fault) => opened_of(seq![wire], secret).len() == 0 && failed_of(
                seq![wire],
                secret,
            ) == seq![BatchFailure { index: 0, fault }],
        },
{
    let batch = seq![wire];
    assert(batch.drop_last() =~= Seq::<Seq<char>>::empty());
    assert(batch.last() == wire);
    reveal_with_fuel(opened_of, 2);
    reveal_with_fuel(failed_of, 2);
    match received_outcome(wire, secret) {
        Ok(unwrapped) => {
            assert(opened_of(batch, secret) =~= seq![(unwrapped.sender, unwrapped.rumor_wire)]);
        },
        Err(fault) => {
            assert(failed_of(batch, secret) =~= seq![BatchFailure { index: 0, fault }]);
        },
    }
}

/// Opens every event that a query returned, each on its own, with the recipient's
/// keys. `events` holds the events as JSON texts.
pub fn fetch_gift_wraps(events: &Vec<String>, recipient: &KeyPair) -> (batch: Batch)
    ensures
        responses_view(batch.opened) == opened_of(names_view(*events), recipient.secret_bytes()),
        batch.failed@ == failed_of(names_view(*events), recipient.secret_bytes()),
        batch.opened@.len() + batch.failed@.len() == events@.len(),
{
    let mut opened: Vec<UnwrappedGiftResponse> = Vec::new();
    let mut failed: Vec<BatchFailure> = Vec::new();
    let mut i: usize = 0;
    let ghost wires = names_view(*events);
    let ghost secret = recipient.secret_bytes();
    proof {
        assert(wires.take(0) =~= Seq::<Seq<char>>::empty());
        assert(responses_view(opened) =~= Seq::<(Seq<char>, Seq<char>)>::empty());
    }
    while i < events.len()
        invariant
            i <= events.len(),
            wires == names_view(*events),
            secret == recipient.secret_bytes(),
            responses_view(opened) == opened_of(wires.take(i as int), secret),
            failed@ == failed_of(wires.take(i as int), secret),
        decreases events.len() - i,
    {
        proof {
            let next = wires.take(i as int + 1);
            assert(next.last() == events@[i as int]@);
            assert(next.drop_last() =~= wires.take(i as int));
        }
        match open_received(events[i].as_str(), recipient) {
            Ok(response) => {
                let ghost before = responses_view(opened);
                let ghost pair = (response.sender_pubkey@, response.gift_wrap_event@);
                opened.push(response);
                proof {
                    assert(responses_view(opened) =~= before.push(pair));
                }
            },
            Err(fault) => {
                failed.push(BatchFailure { index: i, fault });
            },
        }
        i = i + 1;
    }
    proof {
        assert(wires.take(i as int) =~= wires);
        lemma_batch_accounts_for_every_event(wires, secret);
        assert(responses_view(opened).len() == opened@.len());
    }
    Batch { opened, failed }
}

} // verus!
