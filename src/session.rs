use vstd::prelude::*;

use crate::book::{apply_levels_spec, max_u128, side_items, BookUpdate};
use crate::exchanges::{ExchangeError, OrderbookSnapshot};

verus! {

/// Cadence of keepalive pings while streaming.
pub const PING_INTERVAL_MS: u64 = 15000;

/// Longest silence tolerated from the stream: three ping intervals.
pub const LIVENESS_TIMEOUT_MS: u64 = 45000;

/// First reconnection delay.
pub const INITIAL_BACKOFF_MS: u64 = 1000;

/// Largest reconnection delay.
pub const MAX_BACKOFF_MS: u64 = 30000;

/// Where a streaming session stands.
#[derive(Clone, Copy, Debug, PartialEq, Eq, Structural)]
pub enum EngineState {
    Disconnected,
    Connecting,
    AwaitingSubscribeAck,
    Streaming,
    Stopped,
}

/// What the driver of a session observed.
#[derive(Clone, Copy, Debug, PartialEq, Eq, Structural)]
pub enum EngineEvent {
    /// The reconnection delay has elapsed (or the session is first started).
    RetryDue,
    /// The transport to the streaming endpoint is open.
    Connected { now_ms: u64 },
    /// A connect, read or write failed, or the peer closed the connection.
    TransportFailed,
    /// The single response to the subscribe request signalled success.
    SubscribeAcked { now_ms: u64 },
    /// The response to the subscribe request was an error or not an ack.
    SubscribeRejected,
    /// A message arrived on the stream.
    Inbound { now_ms: u64 },
    /// A timer tick.
    Tick { now_ms: u64 },
    /// More messages are queued than can be applied.
    QueueOverflow,
    /// A book message could not be read, so the book can no longer be trusted.
    BookUnreadable,
    /// The process asks the session to stop.
    Shutdown,
}

/// What the driver must do next.
#[derive(Clone, Copy, Debug, PartialEq, Eq, Structural)]
pub enum EngineAction {
    Connect,
    SendSubscribe,
    SendPing,
    /// Drop the transport, then deliver `RetryDue` after `delay_ms`.
    Reconnect { delay_ms: u64 },
    Idle,
    Stop,
}

/// The decision state of one streaming session.
#[derive(Clone, Copy, Debug, PartialEq, Eq, Structural)]
pub struct SessionControl {
    pub state: EngineState,
    pub last_inbound_ms: u64,
    pub last_ping_ms: u64,
    pub backoff_ms: u64,
}

pub open spec fn backoff_in_range(b: u64) -> bool {
    INITIAL_BACKOFF_MS <= b <= MAX_BACKOFF_MS
}

/// The delay after `b`: doubled, capped at `MAX_BACKOFF_MS`.
pub open spec fn next_backoff(b: u64) -> u64 {
    if 2 * b > MAX_BACKOFF_MS { MAX_BACKOFF_MS } else { (2 * b) as u64 }
}

/// Whether the stream has been silent for longer than the liveness timeout.
pub open spec fn silent_too_long(last_inbound_ms: u64, now_ms: u64) -> bool {
    now_ms - last_inbound_ms > LIVENESS_TIMEOUT_MS
}

/// Failure from any live state: back to `Disconnected`, retry after the
/// current delay, and lengthen the next one.
pub open spec fn fail_spec(c: SessionControl) -> (SessionControl, EngineAction) {
    (
        SessionControl { state: EngineState::Disconnected, backoff_ms: next_backoff(c.backoff_ms), ..c },
        EngineAction::Reconnect { delay_ms: c.backoff_ms },
    )
}

/// The transition table of a streaming session.
pub open spec fn step_spec(c: SessionControl, ev: EngineEvent) -> (SessionControl, EngineAction) {
    let live = c.state == EngineState::Connecting || c.state == EngineState::AwaitingSubscribeAck
        || c.state == EngineState::Streaming;
    if ev == EngineEvent::Shutdown || c.state == EngineState::Stopped {
        (SessionControl { state: EngineState::Stopped, ..c }, EngineAction::Stop)
    } else if live && (ev == EngineEvent::TransportFailed || ev == EngineEvent::QueueOverflow || ev
        == EngineEvent::BookUnreadable) {
        fail_spec(c)
    } else {
        match (c.state, ev) {
            (EngineState::Disconnected, EngineEvent::RetryDue) => (
                SessionControl { state: EngineState::Connecting, ..c },
                EngineAction::Connect,
            ),
            (EngineState::Connecting, EngineEvent::Connected { now_ms }) => (
                SessionControl { state: EngineState::AwaitingSubscribeAck, last_inbound_ms: now_ms, ..c },
                EngineAction::SendSubscribe,
            ),
            (EngineState::AwaitingSubscribeAck, EngineEvent::SubscribeAcked { now_ms }) => (
                SessionControl {
                    state: EngineState::Streaming,
                    last_inbound_ms: now_ms,
                    last_ping_ms: now_ms,
                    backoff_ms: INITIAL_BACKOFF_MS,
                },
                EngineAction::Idle,
            ),
            (EngineState::AwaitingSubscribeAck, EngineEvent::SubscribeRejected) => fail_spec(c),
            (EngineState::AwaitingSubscribeAck, EngineEvent::Tick { now_ms }) => {
                if silent_too_long(c.last_inbound_ms, now_ms) {
                    fail_spec(c)
                } else {
                    (c, EngineAction::Idle)
                }
            },
            (EngineState::Streaming, EngineEvent::Inbound { now_ms }) => (
                SessionControl {
                    last_inbound_ms: if now_ms > c.last_inbound_ms { now_ms } else { c.last_inbound_ms },
                    ..c
                },
                EngineAction::Idle,
            ),
            (EngineState::Streaming, EngineEvent::Tick { now_ms }) => {
                if silent_too_long(c.last_inbound_ms, now_ms) {
                    fail_spec(c)
                } else if now_ms - c.last_ping_ms >= PING_INTERVAL_MS {
                    (SessionControl { last_ping_ms: now_ms, ..c }, EngineAction::SendPing)
                } else {
                    (c, EngineAction::Idle)
                }
            },
            _ => (c, EngineAction::Idle),
        }
    }
}

impl SessionControl {
    pub open spec fn wf(&self) -> bool {
        backoff_in_range(self.backoff_ms)
    }

    /// A session that has not connected yet.
    pub fn new() -> (r: SessionControl)
        ensures
            r.wf(),
            r.state == EngineState::Disconnected,
            r.backoff_ms == INITIAL_BACKOFF_MS,
            r.last_inbound_ms == 0,
            r.last_ping_ms == 0,
    {
        SessionControl {
            state: EngineState::Disconnected,
            last_inbound_ms: 0,
            last_ping_ms: 0,
            backoff_ms: INITIAL_BACKOFF_MS,
        }
    }

    fn fail(&mut self) -> (a: EngineAction)
        requires
            old(self).wf(),
        ensures
            (*final(self), a) == fail_spec(*old(self)),
            final(self).wf(),
    {
        let delay = self.backoff_ms;
        self.state = EngineState::Disconnected;
        self.backoff_ms = if delay > MAX_BACKOFF_MS / 2 { MAX_BACKOFF_MS } else { 2 * delay };
        EngineAction::Reconnect { delay_ms: delay }
    }

    fn silent(&self, now_ms: u64) -> (r: bool)
        ensures
            r == silent_too_long(self.last_inbound_ms, now_ms),
    {
        now_ms > self.last_inbound_ms && now_ms - self.last_inbound_ms > LIVENESS_TIMEOUT_MS
    }

    /// Takes one event and says what to do next.
    pub fn step(&mut self, ev: EngineEvent) -> (a: EngineAction)
        requires
            old(self).wf(),
        ensures
            final(self).wf(),
            (*final(self), a) == step_spec(*old(self), ev),
    {
        let live = match self.state {
            EngineState::Connecting | EngineState::AwaitingSubscribeAck | EngineState::Streaming => true,
            _ => false,
        };
        let stopping = match ev {
            EngineEvent::Shutdown => true,
            _ => match self.state {
                EngineState::Stopped => true,
                _ => false,
            },
        };
        if stopping {
            self.state = EngineState::Stopped;
            return EngineAction::Stop;
        }
        let broken = match ev {
            EngineEvent::TransportFailed | EngineEvent::QueueOverflow | EngineEvent::BookUnreadable => true,
            _ => false,
        };
        if live && broken {
            return self.fail();
        }
        match (self.state, ev) {
            (EngineState::Disconnected, EngineEvent::RetryDue) => {
                self.state = EngineState::Connecting;
                EngineAction::Connect
            },
            (EngineState::Connecting, EngineEvent::Connected { now_ms }) => {
                self.state = EngineState::AwaitingSubscribeAck;
                self.last_inbound_ms = now_ms;
                EngineAction::SendSubscribe
            },
            (EngineState::AwaitingSubscribeAck, EngineEvent::SubscribeAcked { now_ms }) => {
                self.state = EngineState::Streaming;
                self.last_inbound_ms = now_ms;
                self.last_ping_ms = now_ms;
                self.backoff_ms = INITIAL_BACKOFF_MS;
                EngineAction::Idle
            },
            (EngineState::AwaitingSubscribeAck, EngineEvent::SubscribeRejected) => self.fail(),
            (EngineState::AwaitingSubscribeAck, EngineEvent::Tick { now_ms }) => {
                if self.silent(now_ms) {
                    self.fail()
                } else {
                    EngineAction::Idle
                }
            },
            (EngineState::Streaming, EngineEvent::Inbound { now_ms }) => {
                if now_ms > self.last_inbound_ms {
                    self.last_inbound_ms = now_ms;
                }
                EngineAction::Idle
            },
            (EngineState::Streaming, EngineEvent::Tick { now_ms }) => {
                if self.silent(now_ms) {
                    self.fail()
                } else if now_ms >= self.last_ping_ms && now_ms - self.last_ping_ms >= PING_INTERVAL_MS {
                    self.last_ping_ms = now_ms;
                    EngineAction::SendPing
                } else {
                    EngineAction::Idle
                }
            },
            _ => EngineAction::Idle,
        }
    }
}

/// One exchange's streaming engine: the session state and the book that
/// only this engine writes.
pub struct SyncEngine {
    pub control: SessionControl,
    pub snapshot: OrderbookSnapshot,
}

impl SyncEngine {
    pub open spec fn wf(&self) -> bool {
        self.control.wf() && self.snapshot.wf()
    }

    /// A disconnected engine with an empty book.
    pub fn new() -> (r: SyncEngine)
        ensures
            r.wf(),
            r.control.state == EngineState::Disconnected,
            r.control.backoff_ms == INITIAL_BACKOFF_MS,
            r.snapshot.asks@.len() == 0,
            r.snapshot.bids@.len() == 0,
            r.snapshot.updated_at == 0,
            r.snapshot.received_at == 0,
    {
        SyncEngine { control: SessionControl::new(), snapshot: OrderbookSnapshot::empty() }
    }

    /// Takes one event. Whenever the session drops back to `Disconnected`
    /// both sides of the book are emptied, so no level survives a reconnect;
    /// otherwise they are left as they were. The timestamps are kept, so
    /// they never move backwards across reconnects.
    pub fn handle(&mut self, ev: EngineEvent) -> (a: EngineAction)
        requires
            old(self).wf(),
        ensures
            final(self).wf(),
            (final(self).control, a) == step_spec(old(self).control, ev),
            a is Reconnect ==> final(self).snapshot.asks@.len() == 0
                && final(self).snapshot.bids@.len() == 0,
            !(a is Reconnect) ==> final(self).snapshot.asks@ == old(self).snapshot.asks@
                && final(self).snapshot.bids@ == old(self).snapshot.bids@,
            final(self).snapshot.updated_at == old(self).snapshot.updated_at,
            final(self).snapshot.received_at == old(self).snapshot.received_at,
    {
        let a = self.control.step(ev);
        if let EngineAction::Reconnect { delay_ms: _ } = a {
            self.snapshot.asks = Vec::new();
            self.snapshot.bids = Vec::new();
        }
        a
    }

    /// Applies a book message while streaming, and says whether it did; in
    /// any other state the message is dropped and the book left alone.
    pub fn apply_book_update(&mut self, u: &BookUpdate) -> (applied: bool)
        requires
            old(self).wf(),
        ensures
            final(self).wf(),
            final(self).control == old(self).control,
            applied == (old(self).control.state == EngineState::Streaming),
            applied ==> side_items(final(self).snapshot.asks@) == apply_levels_spec(
                if u.partial { Set::empty() } else { side_items(old(self).snapshot.asks@) },
                u.asks@,
            ) && side_items(final(self).snapshot.bids@) == apply_levels_spec(
                if u.partial { Set::empty() } else { side_items(old(self).snapshot.bids@) },
                u.bids@,
            ) && final(self).snapshot.updated_at == max_u128(old(self).snapshot.updated_at, u.updated_at)
                && final(self).snapshot.received_at == max_u128(old(self).snapshot.received_at, u.received_at),
            !applied ==> final(self).snapshot.asks@ == old(self).snapshot.asks@
                && final(self).snapshot.bids@ == old(self).snapshot.bids@
                && final(self).snapshot.updated_at == old(self).snapshot.updated_at
                && final(self).snapshot.received_at == old(self).snapshot.received_at,
    {
        match self.control.state {
            EngineState::Streaming => {
                self.snapshot.apply_update(u);
                true
            },
            _ => false,
        }
    }

    /// Takes one inbound message, already read into a book update, nothing
    /// (not a book message), or an error. The arrival is recorded first;
    /// while streaming, an update is then applied, and an unreadable book
    /// message desynchronises the book and sends the session to reconnect.
    pub fn receive(&mut self, msg: Result<Option<BookUpdate>, ExchangeError>, now_ms: u64) -> (a: EngineAction)
        requires
            old(self).wf(),
        ensures
            final(self).wf(),
            ({
                let arrived = step_spec(old(self).control, EngineEvent::Inbound { now_ms });
                let streaming = old(self).control.state == EngineState::Streaming;
                &&& (msg is Ok || !streaming) ==> (final(self).control, a) == arrived
                &&& (msg is Err && streaming) ==> (final(self).control, a) == step_spec(
                    arrived.0,
                    EngineEvent::BookUnreadable,
                ) && a is Reconnect && final(self).snapshot.asks@.len() == 0
                    && final(self).snapshot.bids@.len() == 0
                    && final(self).snapshot.updated_at == old(self).snapshot.updated_at
                    && final(self).snapshot.received_at == old(self).snapshot.received_at
                &&& msg matches Ok(Some(u)) ==> (streaming ==> side_items(final(self).snapshot.asks@)
                    == apply_levels_spec(
                    if u.partial { Set::empty() } else { side_items(old(self).snapshot.asks@) },
                    u.asks@,
                ) && side_items(final(self).snapshot.bids@) == apply_levels_spec(
                    if u.partial { Set::empty() } else { side_items(old(self).snapshot.bids@) },
                    u.bids@,
                ) && final(self).snapshot.updated_at == max_u128(old(self).snapshot.updated_at, u.updated_at)
                    && final(self).snapshot.received_at == max_u128(old(self).snapshot.received_at, u.received_at))
                &&& (!streaming || msg matches Ok(None)) ==> final(self).snapshot.asks@ == old(self).snapshot.asks@
                    && final(self).snapshot.bids@ == old(self).snapshot.bids@
                    && final(self).snapshot.updated_at == old(self).snapshot.updated_at
                    && final(self).snapshot.received_at == old(self).snapshot.received_at
            }),
    {
        let streaming = match self.control.state {
            EngineState::Streaming => true,
            _ => false,
        };
        let a = self.handle(EngineEvent::Inbound { now_ms });
        match msg {
            Ok(Some(u)) => {
                self.apply_book_update(&u);
                a
            },
            Ok(None) => a,
            Err(_) => {
                if streaming {
                    self.handle(EngineEvent::BookUnreadable)
                } else {
                    a
                }
            },
        }
    }
}

/// Liveness law: a streaming session that has heard nothing for longer than
/// the liveness timeout goes back to `Disconnected` on the next tick, drops
/// its book, is told to retry within the capped backoff, and re-enters
/// `Connecting` when that retry falls due.
pub proof fn lemma_silence_forces_reconnect(c: SessionControl, now_ms: u64)
    requires
        c.wf(),
        c.state == EngineState::Streaming,
        now_ms - c.last_inbound_ms > LIVENESS_TIMEOUT_MS,
    ensures
        step_spec(c, EngineEvent::Tick { now_ms }).0.state == EngineState::Disconnected,
        step_spec(c, EngineEvent::Tick { now_ms }).1 == (EngineAction::Reconnect { delay_ms: c.backoff_ms }),
        c.backoff_ms <= MAX_BACKOFF_MS,
        step_spec(step_spec(c, EngineEvent::Tick { now_ms }).0, EngineEvent::RetryDue)
            == (SessionControl {
                state: EngineState::Connecting,
                ..step_spec(c, EngineEvent::Tick { now_ms }).0
            }, EngineAction::Connect),
{
}

/// Reconnection law: whatever live state a session is in when its transport
/// fails, it is told to reconnect after a delay within the backoff bounds, and
/// the next delay is doubled up to the cap.
pub proof fn lemma_failure_backs_off(c: SessionControl)
    requires
        c.wf(),
        c.state == EngineState::Connecting || c.state == EngineState::AwaitingSubscribeAck
            || c.state == EngineState::Streaming,
    ensures
        step_spec(c, EngineEvent::TransportFailed).0.state == EngineState::Disconnected,
        step_spec(c, EngineEvent::TransportFailed).1 == (EngineAction::Reconnect { delay_ms: c.backoff_ms }),
        INITIAL_BACKOFF_MS <= c.backoff_ms <= MAX_BACKOFF_MS,
        step_spec(c, EngineEvent::TransportFailed).0.backoff_ms == next_backoff(c.backoff_ms),
        step_spec(c, EngineEvent::TransportFailed).0.wf(),
{
}

} // verus!
