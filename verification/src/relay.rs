//! The gateway to one relay: the decisions of a single send or a single query, from
//! the first attempt to connect to the report of the result.
//!
//! The gateway decides and the caller acts: the caller performs the action that the
//! gateway hands out, and hands back what came of it. Whatever happens after the
//! connection stands, the gateway asks for it to be closed before it reports.

use vstd::prelude::*;
use crate::error::ShareError;
use crate::error::ShareErrorView;
use crate::wire::names_view;

verus! {

/// Where a gateway stands.
#[derive(Clone, Copy, Debug, PartialEq, Eq, Structural)]
pub enum GatewayState {
    /// No connection: not begun, or done.
    Disconnected,
    /// Waiting for the connection to stand.
    Connecting,
    /// The connection stands and the work on it is over; waiting for it to close.
    Connected,
    /// Waiting for the relay to take the envelope.
    Sending,
    /// Waiting for the relay's events, or for the time to run out.
    Querying,
}

/// What a gateway is for.
#[derive(Debug)]
pub enum RelayRequest {
    /// Send the envelope, given as JSON text.
    Send { relay_url: String, envelope: String },
    /// Fetch the envelopes addressed to the recipient, for no longer than the timeout.
    Query { relay_url: String, recipient: String, timeout_secs: u64 },
}

/// The mathematical value of a `RelayRequest`.
pub enum RelayRequestView {
    Send { relay_url: Seq<char>, envelope: Seq<char> },
    Query { relay_url: Seq<char>, recipient: Seq<char>, timeout_secs: u64 },
}

impl View for RelayRequest {
    type V = RelayRequestView;

    open spec fn view(&self) -> RelayRequestView {
        match *self {
            RelayRequest::Send { relay_url, envelope } => RelayRequestView::Send {
                relay_url: relay_url@,
                envelope: envelope@,
            },
            RelayRequest::Query { relay_url, recipient, timeout_secs } => RelayRequestView::Query {
                relay_url: relay_url@,
                recipient: recipient@,
                timeout_secs,
            },
        }
    }
}

/// What came of the caller's last action.
#[derive(Debug)]
pub enum RelayEvent {
    /// The caller asks for the work to begin.
    Begin,
    /// The connection stands.
    ConnectDone,
    /// The relay could not be added or reached.
    ConnectFailed(String),
    /// The relay took the envelope under this identifier.
    Sent(String),
    /// The relay refused the envelope, or the send failed.
    SendFailed(String),
    /// The query ended in time with these events.
    Fetched(Vec<String>),
    /// The time ran out; these events had arrived by then.
    TimedOut(Vec<String>),
    /// The query failed.
    QueryFailed(String),
    /// The connection is closed.
    Disconnected,
}

/// The result of a gateway's work.
#[derive(Debug)]
pub enum RelayOutcome {
    /// The identifier under which the relay took the envelope.
    Sent(String),
    /// The events that arrived, each as JSON text; none is a valid answer.
    Fetched(Vec<String>),
}

/// What the caller is to do next.
#[derive(Debug)]
pub enum RelayAction {
    /// Add the relay and connect to it.
    Connect,
    /// Send the envelope of the request.
    Send,
    /// Run the query of the request.
    Query,
    /// Close the connection.
    Disconnect,
    /// Report the result; nothing is left to do.
    Finish(Result<RelayOutcome, ShareError>),
}

/// The mathematical value of a `RelayEvent`.
pub enum RelayEventView {
    Begin,
    ConnectDone,
    ConnectFailed(Seq<char>),
    Sent(Seq<char>),
    SendFailed(Seq<char>),
    Fetched(Seq<Seq<char>>),
    TimedOut(Seq<Seq<char>>),
    QueryFailed(Seq<char>),
    Disconnected,
}

impl View for RelayEvent {
    type V = RelayEventView;

    open spec fn view(&self) -> RelayEventView {
        match *self {
            RelayEvent::Begin => RelayEventView::Begin,
            RelayEvent::ConnectDone => RelayEventView::ConnectDone,
            RelayEvent::ConnectFailed(cause) => RelayEventView::ConnectFailed(cause@),
            RelayEvent::Sent(id) => RelayEventView::Sent(id@),
            RelayEvent::SendFailed(cause) => RelayEventView::SendFailed(cause@),
            RelayEvent::Fetched(events) => RelayEventView::Fetched(names_view(events)),
            RelayEvent::TimedOut(events) => RelayEventView::TimedOut(names_view(events)),
            RelayEvent::QueryFailed(cause) => RelayEventView::QueryFailed(cause@),
            RelayEvent::Disconnected => RelayEventView::Disconnected,
        }
    }
}

/// The mathematical value of a result: `Ok` of what was sent or fetched, or `Err` of
/// the relay's words.
pub enum RelayResultView {
    Sent(Seq<char>),
    Fetched(Seq<Seq<char>>),
    Failed(ShareErrorView),
}

/// The value of a result.
pub open spec fn result_view(result: Result<RelayOutcome, ShareError>) -> RelayResultView {
    match result {
        Ok(RelayOutcome::Sent(id)) => RelayResultView::Sent(id@),
        Ok(RelayOutcome::Fetched(events)) => RelayResultView::Fetched(names_view(events)),
        Err(e) => RelayResultView::Failed(e@),
    }
}

/// The mathematical value of a `RelayAction`.
pub enum RelayActionView {
    Connect,
    Send,
    Query,
    Disconnect,
    Finish(RelayResultView),
}

impl View for RelayAction {
    type V = RelayActionView;

    open spec fn view(&self) -> RelayActionView {
        match *self {
            RelayAction::Connect => RelayActionView::Connect,
            RelayAction::Send => RelayActionView::Send,
            RelayAction::Query => RelayActionView::Query,
            RelayAction::Disconnect => RelayActionView::Disconnect,
            RelayAction::Finish(result) => RelayActionView::Finish(result_view(result)),
        }
    }
}

/// A gateway as the rules see it: where it stands, what it is for, and the result
/// that waits to be reported.
pub struct GatewayView {
    pub state: GatewayState,
    pub request: RelayRequestView,
    pub result: Option<RelayResultView>,
}

/// Whether a connection is open in this state.
pub open spec fn holds_connection(state: GatewayState) -> bool {
    state == GatewayState::Connected || state == GatewayState::Sending || state
        == GatewayState::Querying
}

/// The words reported for an event that does not answer the action in flight.
pub open spec fn unexpected_event() -> Seq<char> {
    "unexpected relay event"@
}

/// The words reported where a gateway is asked to go on after it is done.
pub open spec fn not_in_progress() -> Seq<char> {
    "no relay operation in progress"@
}

/// A transport failure with the given words.
pub open spec fn transport_failure(cause: Seq<char>) -> RelayResultView {
    RelayResultView::Failed(ShareErrorView::Transport(cause))
}

/// The gateway after `event`, and the action that it hands out.
///
/// A gateway at rest begins on request and asks for the connection. The moment at
/// which the connection stands and the work has not begun is passed through within one
/// step: success in connecting leads straight to `Sending` or `Querying`, and
/// `Connected` names the state after the work. While it connects, success leads to the send or the query, and anything else ends
/// the work with a failure: no connection stands yet. While it sends or queries,
/// whatever comes back is kept as the result and the connection is closed next; events
/// that arrived before a timeout are a result, not a failure. Once the connection is
/// closed the result is reported.
pub open spec fn after(gateway: GatewayView, event: RelayEventView) -> (GatewayView, RelayActionView) {
    match gateway.state {
        GatewayState::Disconnected => match event {
            RelayEventView::Begin => (
                GatewayView { state: GatewayState::Connecting, result: None, ..gateway },
                RelayActionView::Connect,
            ),
            _ => (gateway, RelayActionView::Finish(transport_failure(not_in_progress()))),
        },
        GatewayState::Connecting => match event {
            RelayEventView::ConnectDone => if gateway.request is Query {
                (GatewayView { state: GatewayState::Querying, ..gateway }, RelayActionView::Query)
            } else {
                (GatewayView { state: GatewayState::Sending, ..gateway }, RelayActionView::Send)
            },
            RelayEventView::ConnectFailed(cause) => (
                GatewayView { state: GatewayState::Disconnected, ..gateway },
                RelayActionView::Finish(transport_failure(cause)),
            ),
            _ => (
                GatewayView { state: GatewayState::Disconnected, ..gateway },
                RelayActionView::Finish(transport_failure(unexpected_event())),
            ),
        },
        GatewayState::Sending => (
            GatewayView {
                state: GatewayState::Connected,
                result: Some(
                    match event {
                        RelayEventView::Sent(id) => RelayResultView::Sent(id),
                        RelayEventView::SendFailed(cause) => transport_failure(cause),
                        _ => transport_failure(unexpected_event()),
                    },
                ),
                ..gateway
            },
            RelayActionView::Disconnect,
        ),
        GatewayState::Querying => (
            GatewayView {
                state: GatewayState::Connected,
                result: Some(
                    match event {
                        RelayEventView::Fetched(events) => RelayResultView::Fetched(events),
                        RelayEventView::TimedOut(events) => RelayResultView::Fetched(events),
                        RelayEventView::QueryFailed(cause) => transport_failure(cause),
                        _ => transport_failure(unexpected_event()),
                    },
                ),
                ..gateway
            },
            RelayActionView::Disconnect,
        ),
        GatewayState::Connected => (
            GatewayView { state: GatewayState::Disconnected, result: None, ..gateway },
            RelayActionView::Finish(
                match gateway.result {
                    Some(result) => result,
                    None => transport_failure(unexpected_event()),
                },
            ),
        ),
    }
}

/// The number of actions that a gateway in this state still hands out, at most.
pub open spec fn actions_left(state: GatewayState) -> nat {
    match state {
        GatewayState::Disconnected => 0,
        GatewayState::Connected => 1,
        GatewayState::Sending => 2,
        GatewayState::Querying => 2,
        GatewayState::Connecting => 3,
    }
}

/// No result is reported over an open connection: a gateway that reports is
/// disconnected, and where a connection was open it has just been closed.
pub proof fn lemma_reports_only_when_disconnected(gateway: GatewayView, event: RelayEventView)
    ensures
        after(gateway, event).1 is Finish ==> after(gateway, event).0.state
            == GatewayState::Disconnected,
        after(gateway, event).1 is Finish && holds_connection(gateway.state) ==> gateway.state
            == GatewayState::Connected,
        holds_connection(gateway.state) && gateway.state != GatewayState::Connected ==> after(
            gateway,
            event,
        ).1 == RelayActionView::Disconnect && after(gateway, event).0.state
            == GatewayState::Connected,
{
}

/// Every event brings a working gateway closer to the end: once begun it is
/// disconnected again after three events at most, whatever they are.
pub proof fn lemma_every_event_advances(gateway: GatewayView, event: RelayEventView)
    requires
        gateway.state != GatewayState::Disconnected,
    ensures
        actions_left(after(gateway, event).0.state) < actions_left(gateway.state),
{
}

/// A query that the time ran out on gives the events that had arrived, none
/// included, and never a failure.
pub proof fn lemma_timeout_is_a_result(gateway: GatewayView, events: Seq<Seq<char>>)
    requires
        gateway.state == GatewayState::Querying,
    ensures
        after(gateway, RelayEventView::TimedOut(events)).0.result == Some(
            RelayResultView::Fetched(events),
        ),
        after(gateway, RelayEventView::TimedOut(events)).0 == after(
            gateway,
            RelayEventView::Fetched(events),
        ).0,
{
}

/// One send or one query on one relay.
#[derive(Debug)]
pub struct Gateway {
    pub(crate) state: GatewayState,
    pub(crate) request: RelayRequest,
    pub(crate) result: Option<Result<RelayOutcome, ShareError>>,
}

impl View for Gateway {
    type V = GatewayView;

    closed spec fn view(&self) -> GatewayView {
        GatewayView {
            state: self.state,
            request: self.request@,
            result: match self.result {
                Some(result) => Some(result_view(result)),
                None => None,
            },
        }
    }
}

impl Gateway {
    /// A gateway for `request`, not yet begun.
    pub fn new(request: RelayRequest) -> (gateway: Gateway)
        ensures
            gateway@ == (GatewayView {
                state: GatewayState::Disconnected,
                request: request@,
                result: None,
            }),
    {
        Gateway { state: GatewayState::Disconnected, request, result: None }
    }

    /// Where the gateway stands.
    pub fn state(&self) -> (state: GatewayState)
        ensures
            state == self@.state,
    {
        self.state
    }

    /// What the gateway is for.
    pub fn request(&self) -> (request: &RelayRequest)
        ensures
            request@ == self@.request,
    {
        &self.request
    }

    /// Takes what came of the last action and hands out the next one.
    pub fn step(&mut self, event: RelayEvent) -> (action: RelayAction)
        ensures
            (final(self)@, action@) == after(old(self)@, event@),
    {
        match self.state {
            GatewayState::Disconnected => match event {
                RelayEvent::Begin => {
                    self.state = GatewayState::Connecting;
                    self.result = None;
                    RelayAction::Connect
                },
                _ => RelayAction::Finish(
                    Err(ShareError::Transport(String::from_str("no relay operation in progress"))),
                ),
            },
            GatewayState::Connecting => match event {
                RelayEvent::ConnectDone => match self.request {
                    RelayRequest::Query { .. } => {
                        self.state = GatewayState::Querying;
                        RelayAction::Query
                    },
                    RelayRequest::Send { .. } => {
                        self.state = GatewayState::Sending;
                        RelayAction::Send
                    },
                },
                RelayEvent::ConnectFailed(cause) => {
                    self.state = GatewayState::Disconnected;
                    RelayAction::Finish(Err(ShareError::Transport(cause)))
                },
                _ => {
                    self.state = GatewayState::Disconnected;
                    RelayAction::Finish(
                        Err(ShareError::Transport(String::from_str("unexpected relay event"))),
                    )
                },
            },
            GatewayState::Sending => {
                self.state = GatewayState::Connected;
                self.result = Some(
                    match event {
                        RelayEvent::Sent(id) => Ok(RelayOutcome::Sent(id)),
                        RelayEvent::SendFailed(cause) => Err(ShareError::Transport(cause)),
                        _ => Err(ShareError::Transport(String::from_str("unexpected relay event"))),
                    },
                );
                RelayAction::Disconnect
            },
            GatewayState::Querying => {
                self.state = GatewayState::Connected;
                self.result = Some(
                    match event {
                        RelayEvent::Fetched(events) => Ok(RelayOutcome::Fetched(events)),
                        RelayEvent::TimedOut(events) => Ok(RelayOutcome::Fetched(events)),
                        RelayEvent::QueryFailed(cause) => Err(ShareError::Transport(cause)),
                        _ => Err(ShareError::Transport(String::from_str("unexpected relay event"))),
                    },
                );
                RelayAction::Disconnect
            },
            GatewayState::Connected => {
                self.state = GatewayState::Disconnected;
                match self.result.take() {
                    Some(result) => RelayAction::Finish(result),
                    None => RelayAction::Finish(
                        Err(ShareError::Transport(String::from_str("unexpected relay event"))),
                    ),
                }
            },
        }
    }
}

} // verus!
