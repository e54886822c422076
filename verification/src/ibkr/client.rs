//! The connection manager: one slot for the live session, and the protocol by
//! which the slot is filled and emptied.
//!
//! Opening, probing and closing a session are slow calls into the gateway's
//! own library. The manager makes none of them. Each of its functions takes
//! what the caller observed, moves the protocol one step on, and says what
//! the caller has to do next. Between two steps the slot is free to be read:
//! a reader finds either a whole session or none.
//!
//! `H` is the caller's handle to a live session. The manager only keeps it.

use crate::ibkr::error::{IbkrError, IbkrErrorView};
use crate::ibkr::types::connection::{
    ConnectionConfig,
    ConnectionConfigView,
    ConnectionStatus,
    ConnectionStatusView,
};
use crate::utils::text::{decimal, push_decimal};
use vstd::prelude::*;
use vstd::string::StringExecFns;

verus! {

/// How long a liveness probe may take, in milliseconds.
pub const PROBE_TIMEOUT_MS: u64 = 2000;

/// How long closing a session may take, in milliseconds.
pub const DROP_TIMEOUT_MS: u64 = 3000;

/// How long the gateway is given to release a client identity after its
/// session was closed, in milliseconds.
pub const RELEASE_GRACE_MS: u64 = 1000;

/// Where the protocol stands.
#[derive(Debug, Clone, Copy, PartialEq, Eq, Structural)]
pub enum Phase {
    /// Nothing is in flight.
    Idle,
    /// A connect found a session in the slot and is probing it.
    Probing,
    /// The session was taken out of the slot and is being closed. With
    /// `reconnect`, a new one is opened afterwards.
    Dropping { reconnect: bool },
    /// The session was closed; the gateway is given time to release the
    /// identity.
    Releasing { reconnect: bool },
    /// A new session is being opened.
    Opening,
}

/// What the caller has to do next.
#[derive(Debug)]
pub enum ConnectStep<H> {
    /// Ask the session in the slot for the gateway's time, for no longer than
    /// `timeout_ms`, and report with [`IbkrClient::probe_finished`].
    Probe { timeout_ms: u64 },
    /// Close `handle`, waiting no longer than `timeout_ms`, and report with
    /// [`IbkrClient::drop_finished`] however it ended.
    Drop { handle: H, timeout_ms: u64 },
    /// Let `millis` pass and report with [`IbkrClient::grace_elapsed`].
    Sleep { millis: u64 },
    /// Open a session at `address` under `client_id` and report with
    /// [`IbkrClient::open_finished`].
    Open { address: String, client_id: i32 },
    /// The operation is over, with this result.
    Done(Result<(), IbkrError>),
    /// The call does not fit the phase. Nothing was changed.
    Refused,
    /// The call does not fit the phase, and came with a session: close it.
    /// Nothing was changed.
    Discard { handle: H },
}

/// A [`ConnectStep`] as plain values.
pub enum ConnectStepView<H> {
    Probe { timeout_ms: u64 },
    Drop { handle: H, timeout_ms: u64 },
    Sleep { millis: u64 },
    Open { address: Seq<char>, client_id: i32 },
    Done(Result<(), IbkrErrorView>),
    Refused,
    Discard { handle: H },
}

impl<H> View for ConnectStep<H> {
    type V = ConnectStepView<H>;

    open spec fn view(&self) -> ConnectStepView<H> {
        match self {
            ConnectStep::Probe { timeout_ms } => ConnectStepView::Probe { timeout_ms: *timeout_ms },
            ConnectStep::Drop { handle, timeout_ms } => ConnectStepView::Drop {
                handle: *handle,
                timeout_ms: *timeout_ms,
            },
            ConnectStep::Sleep { millis } => ConnectStepView::Sleep { millis: *millis },
            ConnectStep::Open { address, client_id } => ConnectStepView::Open {
                address: address@,
                client_id: *client_id,
            },
            ConnectStep::Done(r) => ConnectStepView::Done(
                match r {
                    Ok(_) => Ok(()),
                    Err(e) => Err(e@),
                },
            ),
            ConnectStep::Refused => ConnectStepView::Refused,
            ConnectStep::Discard { handle } => ConnectStepView::Discard { handle: *handle },
        }
    }
}

/// How an attempt to open a session ended.
#[derive(Debug)]
pub enum OpenOutcome<H> {
    /// The gateway admitted the session.
    Opened(H),
    /// The gateway rejected the attempt, or did not answer.
    Rejected(String),
    /// The attempt could not be made or its end was not learnt.
    Lost(String),
}

/// An [`OpenOutcome`] as plain values.
pub enum OpenOutcomeView<H> {
    Opened(H),
    Rejected(Seq<char>),
    Lost(Seq<char>),
}

impl<H> View for OpenOutcome<H> {
    type V = OpenOutcomeView<H>;

    open spec fn view(&self) -> OpenOutcomeView<H> {
        match self {
            OpenOutcome::Opened(h) => OpenOutcomeView::Opened(*h),
            OpenOutcome::Rejected(m) => OpenOutcomeView::Rejected(m@),
            OpenOutcome::Lost(m) => OpenOutcomeView::Lost(m@),
        }
    }
}

/// How a call on a live session ended.
#[derive(Debug)]
pub enum CallOutcome<T> {
    /// The gateway answered.
    Returned(T),
    /// The gateway reported a failure.
    Failed(String),
    /// The call could not be made or its end was not learnt.
    Lost(String),
}

/// A connection manager as plain values.
pub struct ClientModel<H> {
    pub client: Option<H>,
    pub config: ConnectionConfigView,
    pub phase: Phase,
    pub retry_count: u32,
}

/// The address of the gateway: host, colon, port.
pub open spec fn gateway_address(config: ConnectionConfigView) -> Seq<char> {
    config.host + ":"@ + decimal(config.port as nat)
}

/// The step that opens a session for `config`.
pub open spec fn open_step<H>(config: ConnectionConfigView) -> ConnectStepView<H> {
    ConnectStepView::Open { address: gateway_address(config), client_id: config.client_id }
}

/// One more failed attempt; the count stays at its ceiling once it is there.
pub open spec fn one_more(count: u32) -> u32 {
    if count < u32::MAX {
        (count + 1) as u32
    } else {
        count
    }
}

/// The identity after `id`; after the last one the count starts over.
pub open spec fn next_client_id(id: i32) -> i32 {
    if id < i32::MAX {
        (id + 1) as i32
    } else {
        0
    }
}

/// A phase and a slot fit together: while a session is probed it is in the
/// slot, and from the moment closing begins until a new session is installed
/// the slot is empty.
pub open spec fn consistent<H>(s: ClientModel<H>) -> bool {
    match s.phase {
        Phase::Idle => true,
        Phase::Probing => s.client is Some,
        _ => s.client is None,
    }
}

/// `s` in another phase.
pub open spec fn in_phase<H>(s: ClientModel<H>, phase: Phase) -> ClientModel<H> {
    ClientModel { client: s.client, config: s.config, phase, retry_count: s.retry_count }
}

/// `s` with an empty slot, in another phase.
pub open spec fn emptied<H>(s: ClientModel<H>, phase: Phase) -> ClientModel<H> {
    ClientModel { client: None, config: s.config, phase, retry_count: s.retry_count }
}

/// A connect begins: a session in the slot is probed, an empty slot is filled.
pub open spec fn connect_begun<H>(s: ClientModel<H>) -> (ClientModel<H>, ConnectStepView<H>) {
    if s.phase != Phase::Idle {
        (s, ConnectStepView::Refused)
    } else if s.client is Some {
        (in_phase(s, Phase::Probing), ConnectStepView::Probe { timeout_ms: PROBE_TIMEOUT_MS })
    } else {
        (in_phase(s, Phase::Opening), open_step(s.config))
    }
}

/// A probe ended: a session that answered is kept and the connect is over; one
/// that did not is taken out of the slot to be closed, and replaced.
pub open spec fn after_probe<H>(s: ClientModel<H>, alive: bool) -> (
    ClientModel<H>,
    ConnectStepView<H>,
) {
    if s.phase != Phase::Probing {
        (s, ConnectStepView::Refused)
    } else if alive {
        (in_phase(s, Phase::Idle), ConnectStepView::Done(Ok(())))
    } else {
        match s.client {
            Some(handle) => (
                emptied(s, Phase::Dropping { reconnect: true }),
                ConnectStepView::Drop { handle, timeout_ms: DROP_TIMEOUT_MS },
            ),
            None => (in_phase(s, Phase::Opening), open_step(s.config)),
        }
    }
}

/// A disconnect begins: a session in the slot is taken out at once, to be
/// closed; with an empty slot there is nothing to do.
pub open spec fn disconnect_begun<H>(s: ClientModel<H>) -> (ClientModel<H>, ConnectStepView<H>) {
    if s.phase != Phase::Idle {
        (s, ConnectStepView::Refused)
    } else {
        match s.client {
            Some(handle) => (
                emptied(s, Phase::Dropping { reconnect: false }),
                ConnectStepView::Drop { handle, timeout_ms: DROP_TIMEOUT_MS },
            ),
            None => (s, ConnectStepView::Done(Ok(()))),
        }
    }
}

/// Closing ended, in time or not: the grace period begins.
pub open spec fn after_drop<H>(s: ClientModel<H>) -> (ClientModel<H>, ConnectStepView<H>) {
    match s.phase {
        Phase::Dropping { reconnect } => (
            in_phase(s, Phase::Releasing { reconnect }),
            ConnectStepView::Sleep { millis: RELEASE_GRACE_MS },
        ),
        _ => (s, ConnectStepView::Refused),
    }
}

/// The grace period is over: a disconnect is done, a reconnect opens the new
/// session.
pub open spec fn after_grace<H>(s: ClientModel<H>) -> (ClientModel<H>, ConnectStepView<H>) {
    match s.phase {
        Phase::Releasing { reconnect } => if reconnect {
            (in_phase(s, Phase::Opening), open_step(s.config))
        } else {
            (in_phase(s, Phase::Idle), ConnectStepView::Done(Ok(())))
        },
        _ => (s, ConnectStepView::Refused),
    }
}

/// An attempt to open a session ended: a session is installed and the count
/// of failed attempts starts over; a failure is counted and reported.
pub open spec fn after_open<H>(s: ClientModel<H>, outcome: OpenOutcomeView<H>) -> (
    ClientModel<H>,
    ConnectStepView<H>,
) {
    if s.phase != Phase::Opening {
        match outcome {
            OpenOutcomeView::Opened(handle) => (s, ConnectStepView::Discard { handle }),
            _ => (s, ConnectStepView::Refused),
        }
    } else {
        match outcome {
            OpenOutcomeView::Opened(handle) => (
                ClientModel {
                    client: Some(handle),
                    config: s.config,
                    phase: Phase::Idle,
                    retry_count: 0,
                },
                ConnectStepView::Done(Ok(())),
            ),
            OpenOutcomeView::Rejected(m) => (
                ClientModel {
                    client: s.client,
                    config: s.config,
                    phase: Phase::Idle,
                    retry_count: one_more(s.retry_count),
                },
                ConnectStepView::Done(Err(IbkrErrorView::ConnectionFailed(m))),
            ),
            OpenOutcomeView::Lost(m) => (
                ClientModel {
                    client: s.client,
                    config: s.config,
                    phase: Phase::Idle,
                    retry_count: one_more(s.retry_count),
                },
                ConnectStepView::Done(Err(IbkrErrorView::Unknown(m))),
            ),
        }
    }
}

/// What a status query reports once the probe, if one was made, has ended:
/// connected only if there is a session and it told the gateway's time.
pub open spec fn status_of<H>(s: ClientModel<H>, server_time: Option<Seq<char>>) -> ConnectionStatusView {
    if s.client is Some && server_time is Some {
        ConnectionStatusView { connected: true, server_time, client_id: s.config.client_id }
    } else {
        ConnectionStatusView { connected: false, server_time: None, client_id: s.config.client_id }
    }
}

/// What a reader of the slot gets: the session, or `NotConnected`.
pub open spec fn handle_result<H>(s: ClientModel<H>) -> Result<H, IbkrErrorView> {
    match s.client {
        Some(h) => Ok(h),
        None => Err(IbkrErrorView::NotConnected),
    }
}

/// The manager after `n` connects in a row, each of which finds the session
/// alive.
pub open spec fn after_live_connects<H>(s: ClientModel<H>, n: nat) -> ClientModel<H>
    decreases n,
{
    if n == 0 {
        s
    } else {
        after_probe(connect_begun(after_live_connects(s, (n - 1) as nat)).0, true).0
    }
}

/// The manager after a whole disconnect: begun, the session closed, the grace
/// period over.
pub open spec fn after_disconnect<H>(s: ClientModel<H>) -> ClientModel<H> {
    let begun = disconnect_begun(s);
    if begun.1 is Drop {
        after_grace(after_drop(begun.0).0).0
    } else {
        begun.0
    }
}

/// A connect that finds a live session is a no-op: the session is probed,
/// nothing is closed or opened, the connect succeeds and the manager is as it
/// was.
pub proof fn law_live_connect_is_noop<H>(s: ClientModel<H>)
    requires
        s.phase == Phase::Idle,
        s.client is Some,
    ensures
        connect_begun(s).1 == (ConnectStepView::<H>::Probe { timeout_ms: PROBE_TIMEOUT_MS }),
        connect_begun(s).0.client == s.client,
        after_probe(connect_begun(s).0, true) == (s, ConnectStepView::<H>::Done(Ok(()))),
{
}

/// However many connects follow one another without a disconnect, as long as
/// each finds the session alive the manager stays as it was.
pub proof fn law_repeated_connects_are_noops<H>(s: ClientModel<H>, n: nat)
    requires
        s.phase == Phase::Idle,
        s.client is Some,
    ensures
        after_live_connects(s, n) == s,
    decreases n,
{
    if n > 0 {
        law_repeated_connects_are_noops(s, (n - 1) as nat);
        law_live_connect_is_noop(s);
    }
}

/// A disconnect takes the session out of the slot in its first step, hands
/// exactly that session over to be closed, waits out the grace period and
/// succeeds. When it is over the slot is empty: a status query reports
/// `connected == false` whatever a probe might have said, and a reader gets
/// `NotConnected`.
pub proof fn law_disconnect_empties_the_slot<H>(s: ClientModel<H>, server_time: Option<Seq<char>>)
    requires
        s.phase == Phase::Idle,
    ensures
        s.client is Some ==> disconnect_begun(s).1 == (ConnectStepView::Drop {
            handle: s.client->0,
            timeout_ms: DROP_TIMEOUT_MS,
        }) && disconnect_begun(s).0.client is None && after_drop(disconnect_begun(s).0).1 == (
        ConnectStepView::<H>::Sleep { millis: RELEASE_GRACE_MS }) && after_grace(
            after_drop(disconnect_begun(s).0).0,
        ).1 == ConnectStepView::<H>::Done(Ok(())),
        s.client is None ==> disconnect_begun(s) == (s, ConnectStepView::<H>::Done(Ok(()))),
        after_disconnect(s) == emptied(s, Phase::Idle),
        !status_of(after_disconnect(s), server_time).connected,
        handle_result(after_disconnect(s)) == Err::<H, IbkrErrorView>(IbkrErrorView::NotConnected),
        after_disconnect(after_disconnect(s)) == after_disconnect(s),
{
}

/// No step breaks the fit of phase and slot.
pub proof fn law_steps_keep_consistency<H>(s: ClientModel<H>, alive: bool, outcome: OpenOutcomeView<H>)
    requires
        consistent(s),
    ensures
        consistent(connect_begun(s).0),
        consistent(disconnect_begun(s).0),
        consistent(after_probe(s, alive).0),
        consistent(after_drop(s).0),
        consistent(after_grace(s).0),
        consistent(after_open(s, outcome).0),
{
}

/// A session that is handed over to be closed is the one that was in the
/// slot, and the slot is empty from that step on: whoever reads the slot finds
/// a whole session or none, never one whose closing has begun.
pub proof fn law_closing_session_left_the_slot<H>(s: ClientModel<H>, alive: bool)
    requires
        consistent(s),
    ensures
        disconnect_begun(s).1 is Drop ==> s.client == Some(disconnect_begun(s).1->Drop_handle)
            && disconnect_begun(s).0.client is None,
        after_probe(s, alive).1 is Drop ==> s.client == Some(after_probe(s, alive).1->Drop_handle)
            && after_probe(s, alive).0.client is None,
        !(connect_begun(s).1 is Drop),
        !(after_drop(s).1 is Drop),
        !(after_grace(s).1 is Drop),
        s.phase is Dropping || s.phase is Releasing || s.phase is Opening ==> handle_result(s)
            == Err::<H, IbkrErrorView>(IbkrErrorView::NotConnected),
{
}

/// A connect that finds the session dead closes it, waits out the grace
/// period and opens a new one for the same gateway and identity; once that one
/// is admitted it is in the slot and no failed attempt is on the count.
pub proof fn law_dead_session_is_replaced<H>(s: ClientModel<H>, fresh: H)
    requires
        s.phase == Phase::Idle,
        s.client is Some,
    ensures
        ({
            let probing = connect_begun(s).0;
            let dropping = after_probe(probing, false);
            let releasing = after_drop(dropping.0);
            let opening = after_grace(releasing.0);
            let done = after_open(opening.0, OpenOutcomeView::Opened(fresh));
            &&& dropping.1 == (ConnectStepView::Drop {
                handle: s.client->0,
                timeout_ms: DROP_TIMEOUT_MS,
            })
            &&& releasing.1 == (ConnectStepView::<H>::Sleep { millis: RELEASE_GRACE_MS })
            &&& opening.1 == open_step::<H>(s.config)
            &&& done.1 == ConnectStepView::<H>::Done(Ok(()))
            &&& done.0 == (ClientModel {
                client: Some(fresh),
                config: s.config,
                phase: Phase::Idle,
                retry_count: 0,
            })
        }),
{
}

/// An attempt that the gateway rejects leaves the slot empty, counts as one
/// failed attempt and is reported as `ConnectionFailed`; nothing is tried
/// again on its own.
pub proof fn law_rejected_connect_is_reported<H>(s: ClientModel<H>, reason: Seq<char>)
    requires
        s.phase == Phase::Idle,
        s.client is None,
    ensures
        connect_begun(s).1 == open_step::<H>(s.config),
        after_open(connect_begun(s).0, OpenOutcomeView::Rejected(reason)) == (
            ClientModel::<H> {
                client: None,
                config: s.config,
                phase: Phase::Idle,
                retry_count: one_more(s.retry_count),
            },
            ConnectStepView::<H>::Done(Err(IbkrErrorView::ConnectionFailed(reason))),
        ),
{
}

/// Where a connection stands in its life.
#[derive(Debug, Clone, Copy, PartialEq, Eq, Structural)]
pub enum ConnectionState {
    /// There is no session, and none is being opened.
    Disconnected,
    /// A session is being opened.
    Connecting,
    /// There is a session.
    Connected,
    /// The session did not answer and is being closed, to be replaced.
    Dead,
}

/// Where the connection of `s` stands in its life.
pub open spec fn state_of<H>(s: ClientModel<H>) -> ConnectionState {
    match s.phase {
        Phase::Idle => if s.client is Some {
            ConnectionState::Connected
        } else {
            ConnectionState::Disconnected
        },
        Phase::Probing => if s.client is Some {
            ConnectionState::Connected
        } else {
            ConnectionState::Disconnected
        },
        Phase::Dropping { reconnect } => if reconnect {
            ConnectionState::Dead
        } else {
            ConnectionState::Disconnected
        },
        Phase::Releasing { .. } => ConnectionState::Disconnected,
        Phase::Opening => ConnectionState::Connecting,
    }
}

/// The moves that the life of a connection is made of: from disconnected to
/// connecting, from connecting to connected or back to disconnected, from
/// connected to disconnected or to dead, and from dead to disconnected.
pub open spec fn life_cycle_move(from: ConnectionState, to: ConnectionState) -> bool {
    ||| from == to
    ||| from == ConnectionState::Disconnected && to == ConnectionState::Connecting
    ||| from == ConnectionState::Connecting && to == ConnectionState::Connected
    ||| from == ConnectionState::Connecting && to == ConnectionState::Disconnected
    ||| from == ConnectionState::Connected && to == ConnectionState::Disconnected
    ||| from == ConnectionState::Connected && to == ConnectionState::Dead
    ||| from == ConnectionState::Dead && to == ConnectionState::Disconnected
}

/// Something that happens to a connection manager: a request of a caller, or
/// the end of a step that was handed out.
pub enum ClientEvent<H> {
    Connect,
    Disconnect,
    ProbeFinished { alive: bool },
    DropFinished,
    GraceElapsed,
    OpenFinished { outcome: OpenOutcomeView<H> },
}

/// The manager after `event`.
pub open spec fn after_event<H>(s: ClientModel<H>, event: ClientEvent<H>) -> ClientModel<H> {
    match event {
        ClientEvent::Connect => connect_begun(s).0,
        ClientEvent::Disconnect => disconnect_begun(s).0,
        ClientEvent::ProbeFinished { alive } => after_probe(s, alive).0,
        ClientEvent::DropFinished => after_drop(s).0,
        ClientEvent::GraceElapsed => after_grace(s).0,
        ClientEvent::OpenFinished { outcome } => after_open(s, outcome).0,
    }
}

/// The manager after each of `events`, in order.
pub open spec fn after_events<H>(s: ClientModel<H>, events: Seq<ClientEvent<H>>) -> ClientModel<H>
    decreases events.len(),
{
    if events.len() == 0 {
        s
    } else {
        after_event(after_events(s, events.drop_last()), events.last())
    }
}

/// A manager as it is made: an empty slot, nothing in flight.
pub open spec fn initial<H>(config: ConnectionConfigView) -> ClientModel<H> {
    ClientModel { client: None, config, phase: Phase::Idle, retry_count: 0 }
}

/// Whatever happens, in whatever order, a connection moves through its life
/// only along the moves of the life cycle.
pub proof fn law_events_follow_the_life_cycle<H>(s: ClientModel<H>, event: ClientEvent<H>)
    requires
        consistent(s),
    ensures
        life_cycle_move(state_of(s), state_of(after_event(s, event))),
        consistent(after_event(s, event)),
{
}

/// In every state that a manager can reach, phase and slot fit together, and
/// while a session is being closed, the identity released or a new session
/// opened, a reader of the slot gets `NotConnected`.
pub proof fn law_every_reachable_state_is_whole<H>(
    config: ConnectionConfigView,
    events: Seq<ClientEvent<H>>,
)
    ensures
        consistent(after_events(initial::<H>(config), events)),
        ({
            let s = after_events(initial::<H>(config), events);
            s.phase is Dropping || s.phase is Releasing || s.phase is Opening ==> handle_result(s)
                == Err::<H, IbkrErrorView>(IbkrErrorView::NotConnected)
        }),
    decreases events.len(),
{
    if events.len() > 0 {
        law_every_reachable_state_is_whole(config, events.drop_last());
        law_events_follow_the_life_cycle(
            after_events(initial::<H>(config), events.drop_last()),
            events.last(),
        );
    }
}

/// The connection manager.
pub struct IbkrClient<H> {
    client: Option<H>,
    config: ConnectionConfig,
    phase: Phase,
    retry_count: u32,
}

impl<H> View for IbkrClient<H> {
    type V = ClientModel<H>;

    closed spec fn view(&self) -> ClientModel<H> {
        ClientModel {
            client: self.client,
            config: self.config@,
            phase: self.phase,
            retry_count: self.retry_count,
        }
    }
}

fn address_of(config: &ConnectionConfig) -> (r: String)
    ensures
        r@ == gateway_address(config@),
{
    let mut address = config.host.clone();
    address.append(":");
    push_decimal(&mut address, config.port as u64);
    address
}

impl<H> IbkrClient<H> {
    /// A manager with an empty slot, for the gateway that `config` names.
    pub fn new(config: ConnectionConfig) -> (r: Self)
        ensures
            r@ == (ClientModel::<H> {
                client: None,
                config: config@,
                phase: Phase::Idle,
                retry_count: 0,
            }),
    {
        IbkrClient { client: None, config, phase: Phase::Idle, retry_count: 0 }
    }

    /// Whether a session is in the slot.
    pub fn is_connected(&self) -> (r: bool)
        ensures
            r == self@.client is Some,
    {
        self.client.is_some()
    }

    /// Where the connection stands in its life.
    pub fn state(&self) -> (r: ConnectionState)
        ensures
            r == state_of(self@),
    {
        match self.phase {
            Phase::Idle => if self.client.is_some() {
                ConnectionState::Connected
            } else {
                ConnectionState::Disconnected
            },
            Phase::Probing => if self.client.is_some() {
                ConnectionState::Connected
            } else {
                ConnectionState::Disconnected
            },
            Phase::Dropping { reconnect } => if reconnect {
                ConnectionState::Dead
            } else {
                ConnectionState::Disconnected
            },
            Phase::Releasing { .. } => ConnectionState::Disconnected,
            Phase::Opening => ConnectionState::Connecting,
        }
    }

    /// Where the protocol stands.
    pub fn phase(&self) -> (r: Phase)
        ensures
            r == self@.phase,
    {
        self.phase
    }

    /// How many attempts to open a session have failed since the last one
    /// that succeeded.
    pub fn retry_count(&self) -> (r: u32)
        ensures
            r == self@.retry_count,
    {
        self.retry_count
    }

    /// The gateway and the identity that the next session is opened with.
    pub fn config(&self) -> (r: &ConnectionConfig)
        ensures
            r@ == self@.config,
    {
        &self.config
    }

    /// The session, for the length of one call: `NotConnected` if the slot is
    /// empty.
    pub fn handle(&self) -> (r: Result<&H, IbkrError>)
        ensures
            match r {
                Ok(h) => handle_result(self@) == Ok::<H, IbkrErrorView>(*h),
                Err(e) => handle_result(self@) == Err::<H, IbkrErrorView>(e@),
            },
    {
        match &self.client {
            Some(h) => Ok(h),
            None => Err(IbkrError::NotConnected),
        }
    }

    fn open_action(&self) -> (r: ConnectStep<H>)
        ensures
            r@ == open_step::<H>(self@.config),
    {
        ConnectStep::Open { address: address_of(&self.config), client_id: self.config.client_id }
    }

    /// Begins a connect and says what is to be done first: to probe the
    /// session that is in the slot, or to open one for an empty slot. The
    /// connect is over when a step says [`ConnectStep::Done`]. Nothing is
    /// tried again on its own.
    pub fn connect(&mut self) -> (r: ConnectStep<H>)
        ensures
            (final(self)@, r@) == connect_begun(old(self)@),
    {
        match self.phase {
            Phase::Idle => {
                if self.client.is_some() {
                    self.phase = Phase::Probing;
                    ConnectStep::Probe { timeout_ms: PROBE_TIMEOUT_MS }
                } else {
                    self.phase = Phase::Opening;
                    self.open_action()
                }
            },
            _ => ConnectStep::Refused,
        }
    }

    /// Takes the end of a probe: `alive` if the session told the gateway's
    /// time within the bound.
    pub fn probe_finished(&mut self, alive: bool) -> (r: ConnectStep<H>)
        ensures
            (final(self)@, r@) == after_probe(old(self)@, alive),
    {
        match self.phase {
            Phase::Probing => {
                if alive {
                    self.phase = Phase::Idle;
                    ConnectStep::Done(Ok(()))
                } else {
                    match self.client.take() {
                        Some(handle) => {
                            self.phase = Phase::Dropping { reconnect: true };
                            ConnectStep::Drop { handle, timeout_ms: DROP_TIMEOUT_MS }
                        },
                        None => {
                            self.phase = Phase::Opening;
                            self.open_action()
                        },
                    }
                }
            },
            _ => ConnectStep::Refused,
        }
    }

    /// Begins a disconnect. A session in the slot is taken out at once and
    /// handed over to be closed; from then on readers find the slot empty.
    /// With an empty slot the disconnect is over at once.
    pub fn disconnect(&mut self) -> (r: ConnectStep<H>)
        ensures
            (final(self)@, r@) == disconnect_begun(old(self)@),
    {
        match self.phase {
            Phase::Idle => {
                match self.client.take() {
                    Some(handle) => {
                        self.phase = Phase::Dropping { reconnect: false };
                        ConnectStep::Drop { handle, timeout_ms: DROP_TIMEOUT_MS }
                    },
                    None => ConnectStep::Done(Ok(())),
                }
            },
            _ => ConnectStep::Refused,
        }
    }

    /// Takes the end of closing a session, whether it ended in time or not.
    pub fn drop_finished(&mut self) -> (r: ConnectStep<H>)
        ensures
            (final(self)@, r@) == after_drop(old(self)@),
    {
        match self.phase {
            Phase::Dropping { reconnect } => {
                self.phase = Phase::Releasing { reconnect };
                ConnectStep::Sleep { millis: RELEASE_GRACE_MS }
            },
            _ => ConnectStep::Refused,
        }
    }

    /// Takes the end of the grace period.
    pub fn grace_elapsed(&mut self) -> (r: ConnectStep<H>)
        ensures
            (final(self)@, r@) == after_grace(old(self)@),
    {
        match self.phase {
            Phase::Releasing { reconnect } => {
                if reconnect {
                    self.phase = Phase::Opening;
                    self.open_action()
                } else {
                    self.phase = Phase::Idle;
                    ConnectStep::Done(Ok(()))
                }
            },
            _ => ConnectStep::Refused,
        }
    }

    /// Takes the end of an attempt to open a session.
    pub fn open_finished(&mut self, outcome: OpenOutcome<H>) -> (r: ConnectStep<H>)
        ensures
            (final(self)@, r@) == after_open(old(self)@, outcome@),
    {
        match self.phase {
            Phase::Opening => {
                self.phase = Phase::Idle;
                match outcome {
                    OpenOutcome::Opened(handle) => {
                        self.client = Some(handle);
                        self.retry_count = 0;
                        ConnectStep::Done(Ok(()))
                    },
                    OpenOutcome::Rejected(m) => {
                        self.count_failure();
                        ConnectStep::Done(Err(IbkrError::ConnectionFailed(m)))
                    },
                    OpenOutcome::Lost(m) => {
                        self.count_failure();
                        ConnectStep::Done(Err(IbkrError::Unknown(m)))
                    },
                }
            },
            _ => match outcome {
                OpenOutcome::Opened(handle) => ConnectStep::Discard { handle },
                _ => ConnectStep::Refused,
            },
        }
    }

    fn count_failure(&mut self)
        ensures
            final(self)@ == (ClientModel {
                client: old(self)@.client,
                config: old(self)@.config,
                phase: old(self)@.phase,
                retry_count: one_more(old(self)@.retry_count),
            }),
    {
        if self.retry_count < u32::MAX {
            self.retry_count = self.retry_count + 1;
        }
    }

    /// Counts one more failed attempt.
    pub fn increment_retry_count(&mut self)
        ensures
            final(self)@ == (ClientModel {
                client: old(self)@.client,
                config: old(self)@.config,
                phase: old(self)@.phase,
                retry_count: one_more(old(self)@.retry_count),
            }),
    {
        self.count_failure();
    }

    /// Starts the count of failed attempts over.
    pub fn reset_retry_count(&mut self)
        ensures
            final(self)@ == (ClientModel {
                client: old(self)@.client,
                config: old(self)@.config,
                phase: old(self)@.phase,
                retry_count: 0,
            }),
    {
        self.retry_count = 0;
    }

    /// Moves on to the next client identity, so that the next session does
    /// not ask for one that the gateway may not have released yet.
    pub fn increment_client_id(&mut self)
        ensures
            final(self)@ == (ClientModel {
                client: old(self)@.client,
                config: ConnectionConfigView {
                    host: old(self)@.config.host,
                    port: old(self)@.config.port,
                    client_id: next_client_id(old(self)@.config.client_id),
                },
                phase: old(self)@.phase,
                retry_count: old(self)@.retry_count,
            }),
    {
        if self.config.client_id < i32::MAX {
            self.config.client_id = self.config.client_id + 1;
        } else {
            self.config.client_id = 0;
        }
    }

    /// The probe that a status query has to make first: none without a
    /// session; with one, a probe that may take no longer than the returned
    /// number of milliseconds.
    pub fn status_probe(&self) -> (r: Option<u64>)
        ensures
            r == if self@.client is Some {
                Some(PROBE_TIMEOUT_MS)
            } else {
                None
            },
    {
        if self.client.is_some() {
            Some(PROBE_TIMEOUT_MS)
        } else {
            None
        }
    }

    /// The status to report. `server_time` is what the probe returned: the
    /// gateway's time, or nothing if it failed, timed out or was not made.
    pub fn get_connection_status(&self, server_time: Option<String>) -> (r: ConnectionStatus)
        ensures
            r@ == status_of(
                self@,
                match server_time {
                    Some(t) => Some(t@),
                    None => None,
                },
            ),
    {
        if self.client.is_some() && server_time.is_some() {
            ConnectionStatus { connected: true, server_time, client_id: self.config.client_id }
        } else {
            ConnectionStatus { connected: false, server_time: None, client_id: self.config.client_id }
        }
    }
}

/// Brings the end of a call on a live session into the library's failures: a
/// failure that the gateway reported is an `ApiError`, a call whose end was
/// not learnt is `Unknown`.
pub fn call_result<T>(outcome: CallOutcome<T>) -> (r: Result<T, IbkrError>)
    ensures
        match outcome {
            CallOutcome::Returned(v) => r == Ok::<T, IbkrError>(v),
            CallOutcome::Failed(m) => r is Err && r->Err_0@ == IbkrErrorView::ApiError(m@),
            CallOutcome::Lost(m) => r is Err && r->Err_0@ == IbkrErrorView::Unknown(m@),
        },
{
    match outcome {
        CallOutcome::Returned(v) => Ok(v),
        CallOutcome::Failed(m) => Err(IbkrError::ApiError(m)),
        CallOutcome::Lost(m) => Err(IbkrError::Unknown(m)),
    }
}

} // verus!
