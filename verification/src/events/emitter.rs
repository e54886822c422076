//! What the session tells its observers, and the queue through which it does.
//!
//! Where an event carries a figure or a record that the library does not read,
//! it carries it as JSON text, as the caller wrote it.
//!
//! Whoever changes the state of the session puts an event into the queue once
//! the change is made; the application takes the events out and shows them.
//! Nothing depends on whether an event was shown.

use vstd::prelude::*;
use vstd::string::StringExecFns;

verus! {

/// Something an observer may want to know.
#[derive(Debug, Clone)]
pub enum AppEvent {
    ConnectionStatusChanged { connected: bool, message: String },
    ConnectionError { error: String },
    AccountUpdate { account_id: String, data: String },
    AccountsListChanged { accounts: Vec<String> },
    MarketDataUpdate { symbol: String, data: String },
    MarketDataSubscribed { symbol: String },
    MarketDataUnsubscribed { symbol: String },
    OrderPlaced { order_id: i32, symbol: String },
    OrderFilled { order_id: i32, filled_qty: String },
    OrderCancelled { order_id: i32 },
    OrderError { order_id: Option<i32>, error: String },
    PositionUpdate { symbol: String, position: String },
    PositionsRefreshed,
    RateLimitWarning { remaining: u32 },
    SystemError { error: String },
}

/// An [`AppEvent`] as plain values.
pub enum AppEventView {
    ConnectionStatusChanged { connected: bool, message: Seq<char> },
    ConnectionError { error: Seq<char> },
    AccountUpdate { account_id: Seq<char>, data: Seq<char> },
    AccountsListChanged { accounts: Seq<Seq<char>> },
    MarketDataUpdate { symbol: Seq<char>, data: Seq<char> },
    MarketDataSubscribed { symbol: Seq<char> },
    MarketDataUnsubscribed { symbol: Seq<char> },
    OrderPlaced { order_id: i32, symbol: Seq<char> },
    OrderFilled { order_id: i32, filled_qty: Seq<char> },
    OrderCancelled { order_id: i32 },
    OrderError { order_id: Option<i32>, error: Seq<char> },
    PositionUpdate { symbol: Seq<char>, position: Seq<char> },
    PositionsRefreshed,
    RateLimitWarning { remaining: u32 },
    SystemError { error: Seq<char> },
}

impl View for AppEvent {
    type V = AppEventView;

    open spec fn view(&self) -> AppEventView {
        match self {
            AppEvent::ConnectionStatusChanged { connected, message } => {
                AppEventView::ConnectionStatusChanged { connected: *connected, message: message@ }
            },
            AppEvent::ConnectionError { error } => AppEventView::ConnectionError { error: error@ },
            AppEvent::AccountUpdate { account_id, data } => AppEventView::AccountUpdate {
                account_id: account_id@,
                data: data@,
            },
            AppEvent::AccountsListChanged { accounts } => AppEventView::AccountsListChanged {
                accounts: accounts@.map_values(|a: String| a@),
            },
            AppEvent::MarketDataUpdate { symbol, data } => AppEventView::MarketDataUpdate {
                symbol: symbol@,
                data: data@,
            },
            AppEvent::MarketDataSubscribed { symbol } => AppEventView::MarketDataSubscribed {
                symbol: symbol@,
            },
            AppEvent::MarketDataUnsubscribed { symbol } => AppEventView::MarketDataUnsubscribed {
                symbol: symbol@,
            },
            AppEvent::OrderPlaced { order_id, symbol } => AppEventView::OrderPlaced {
                order_id: *order_id,
                symbol: symbol@,
            },
            AppEvent::OrderFilled { order_id, filled_qty } => AppEventView::OrderFilled {
                order_id: *order_id,
                filled_qty: filled_qty@,
            },
            AppEvent::OrderCancelled { order_id } => AppEventView::OrderCancelled {
                order_id: *order_id,
            },
            AppEvent::OrderError { order_id, error } => AppEventView::OrderError {
                order_id: *order_id,
                error: error@,
            },
            AppEvent::PositionUpdate { symbol, position } => AppEventView::PositionUpdate {
                symbol: symbol@,
                position: position@,
            },
            AppEvent::PositionsRefreshed => AppEventView::PositionsRefreshed,
            AppEvent::RateLimitWarning { remaining } => AppEventView::RateLimitWarning {
                remaining: *remaining,
            },
            AppEvent::SystemError { error } => AppEventView::SystemError { error: error@ },
        }
    }
}

/// The name under which an event is shown.
pub open spec fn event_name(e: AppEventView) -> Seq<char> {
    match e {
        AppEventView::ConnectionStatusChanged { .. } => "connection-status-changed"@,
        AppEventView::ConnectionError { .. } => "connection-error"@,
        AppEventView::AccountUpdate { .. } => "account-update"@,
        AppEventView::AccountsListChanged { .. } => "accounts-list-changed"@,
        AppEventView::MarketDataUpdate { .. } => "market-data-update"@,
        AppEventView::MarketDataSubscribed { .. } => "market-data-subscribed"@,
        AppEventView::MarketDataUnsubscribed { .. } => "market-data-unsubscribed"@,
        AppEventView::OrderPlaced { .. } => "order-placed"@,
        AppEventView::OrderFilled { .. } => "order-filled"@,
        AppEventView::OrderCancelled { .. } => "order-cancelled"@,
        AppEventView::OrderError { .. } => "order-error"@,
        AppEventView::PositionUpdate { .. } => "position-update"@,
        AppEventView::PositionsRefreshed => "positions-refreshed"@,
        AppEventView::RateLimitWarning { .. } => "rate-limit-warning"@,
        AppEventView::SystemError { .. } => "system-error"@,
    }
}

/// What the status event says in words.
pub open spec fn status_message(connected: bool) -> Seq<char> {
    if connected {
        "Connected to IBKR"@
    } else {
        "Disconnected from IBKR"@
    }
}

/// The event that tells of a change of the connection status.
pub open spec fn status_event(connected: bool) -> AppEventView {
    AppEventView::ConnectionStatusChanged { connected, message: status_message(connected) }
}

impl AppEvent {
    /// The name under which this event is shown.
    pub fn name(&self) -> (r: &'static str)
        ensures
            r@ == event_name(self@),
    {
        match self {
            AppEvent::ConnectionStatusChanged { .. } => "connection-status-changed",
            AppEvent::ConnectionError { .. } => "connection-error",
            AppEvent::AccountUpdate { .. } => "account-update",
            AppEvent::AccountsListChanged { .. } => "accounts-list-changed",
            AppEvent::MarketDataUpdate { .. } => "market-data-update",
            AppEvent::MarketDataSubscribed { .. } => "market-data-subscribed",
            AppEvent::MarketDataUnsubscribed { .. } => "market-data-unsubscribed",
            AppEvent::OrderPlaced { .. } => "order-placed",
            AppEvent::OrderFilled { .. } => "order-filled",
            AppEvent::OrderCancelled { .. } => "order-cancelled",
            AppEvent::OrderError { .. } => "order-error",
            AppEvent::PositionUpdate { .. } => "position-update",
            AppEvent::PositionsRefreshed => "positions-refreshed",
            AppEvent::RateLimitWarning { .. } => "rate-limit-warning",
            AppEvent::SystemError { .. } => "system-error",
        }
    }

    /// The event that tells of a change of the connection status.
    pub fn connection_status(connected: bool) -> (r: AppEvent)
        ensures
            r@ == status_event(connected),
    {
        let message = if connected {
            String::from_str("Connected to IBKR")
        } else {
            String::from_str("Disconnected from IBKR")
        };
        AppEvent::ConnectionStatusChanged { connected, message }
    }
}

/// The events of `s` as plain values.
pub open spec fn events_view(s: Seq<AppEvent>) -> Seq<AppEventView> {
    s.map_values(|e: AppEvent| e@)
}

/// An event queue as plain values: whether an application has attached
/// itself, and the events that wait for it.
pub struct EmitterView {
    pub attached: bool,
    pub pending: Seq<AppEventView>,
}

/// What emitting `event` does to a queue: an attached queue takes it, any
/// other lets it fall.
pub open spec fn emitted(v: EmitterView, event: AppEventView) -> EmitterView {
    if v.attached {
        EmitterView { attached: true, pending: v.pending.push(event) }
    } else {
        v
    }
}

/// The queue of events that wait for the application.
pub struct EventEmitter {
    attached: bool,
    pending: Vec<AppEvent>,
}

impl View for EventEmitter {
    type V = EmitterView;

    closed spec fn view(&self) -> EmitterView {
        EmitterView { attached: self.attached, pending: events_view(self.pending@) }
    }
}

impl EventEmitter {
    /// A queue that no application has attached itself to.
    pub fn new() -> (r: Self)
        ensures
            r@ == (EmitterView { attached: false, pending: Seq::empty() }),
    {
        let r = EventEmitter { attached: false, pending: Vec::new() };
        assert(r@.pending =~= Seq::<AppEventView>::empty());
        r
    }

    /// Attaches the application: from now on events are kept for it.
    pub fn set_app_handle(&mut self)
        ensures
            final(self)@ == (EmitterView { attached: true, pending: old(self)@.pending }),
    {
        self.attached = true;
    }

    /// Puts `event` into the queue. Without an application the event is lost
    /// and the caller is told so.
    pub fn emit(&mut self, event: AppEvent) -> (r: Result<(), String>)
        ensures
            final(self)@ == emitted(old(self)@, event@),
            old(self)@.attached ==> r is Ok,
            !old(self)@.attached ==> r is Err && r->Err_0@ == "App handle not initialized"@,
    {
        if self.attached {
            self.pending.push(event);
            assert(self@.pending =~= old(self)@.pending.push(event@));
            Ok(())
        } else {
            Err(String::from_str("App handle not initialized"))
        }
    }

    /// The number of events that wait.
    pub fn pending_len(&self) -> (r: usize)
        ensures
            r == self@.pending.len(),
    {
        self.pending.len()
    }

    /// Takes the waiting events out of the queue, oldest first.
    pub fn take_pending(&mut self) -> (r: Vec<AppEvent>)
        ensures
            events_view(r@) == old(self)@.pending,
            final(self)@ == (EmitterView { attached: old(self)@.attached, pending: Seq::empty() }),
    {
        let mut out: Vec<AppEvent> = Vec::new();
        core::mem::swap(&mut out, &mut self.pending);
        assert(self@.pending =~= Seq::<AppEventView>::empty());
        out
    }
}

} // verus!
