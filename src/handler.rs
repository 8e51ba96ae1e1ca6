use vstd::prelude::*;
use vstd::string::{StrSliceExecFns, StringSliceAdditionalSpecFns};

use crate::payload::{
    c_string, normalize_message, normalized, to_c_bytes, INVALID_TYPE_REPLY, OPEN_GREETING,
    TIMEOUT_REASON,
};
use crate::registry::CallbackKind;

verus! {

/// Where a connection is in its life.
#[derive(Clone, Copy, Debug, PartialEq, Eq, Structural)]
pub enum ConnState {
    /// Accepted, handshake not yet complete.
    Connecting,
    /// Handshake complete; messages flow and the watchdog runs.
    Open,
    /// Closed by the watchdog or by the socket; nothing more happens.
    Closed,
}

/// A frame received from a client.
#[derive(Debug)]
pub enum Frame {
    /// A text frame with its payload.
    Text(String),
    /// Any frame that is not text.
    Binary(Vec<u8>),
}

/// What the protocol engine must do on behalf of a connection.
#[derive(Debug, PartialEq, Eq)]
pub enum Action {
    /// Call the registered callback of this kind, if any, with these
    /// nul-terminated bytes.
    Notify(CallbackKind, Vec<u8>),
    /// Send this text frame to this connection only.
    Reply(String),
    /// Arm the one-shot watchdog timer for this many milliseconds.
    ArmTimer(u64),
    /// Close this connection with this reason.
    Close(String),
}

/// An [`Action`] as mathematical values.
pub enum ActionModel {
    Notify(CallbackKind, Seq<u8>),
    Reply(Seq<char>),
    ArmTimer(u64),
    Close(Seq<char>),
}

impl View for Action {
    type V = ActionModel;

    open spec fn view(&self) -> ActionModel {
        match self {
            Action::Notify(k, b) => ActionModel::Notify(*k, b@),
            Action::Reply(s) => ActionModel::Reply(s@),
            Action::ArmTimer(ms) => ActionModel::ArmTimer(*ms),
            Action::Close(s) => ActionModel::Close(s@),
        }
    }
}

/// A list of actions as mathematical values.
pub open spec fn actions_view(a: Seq<Action>) -> Seq<ActionModel> {
    a.map_values(|x: Action| x@)
}

/// An event the protocol engine delivers to a connection.
pub enum Event {
    /// The handshake completed.
    Open,
    /// A text frame with these payload bytes arrived.
    Text(Seq<u8>),
    /// A frame that is not text arrived.
    NonText,
    /// The watchdog timer fired.
    Timeout,
    /// The socket closed with this reason.
    Close(Seq<char>),
}

/// The event that receiving `frame` is.
pub open spec fn frame_event(frame: Frame) -> Event {
    match frame {
        Frame::Text(s) => Event::Text(utf8(s@)),
        Frame::Binary(_) => Event::NonText,
    }
}

/// The UTF-8 encoding of a character sequence.
pub open spec fn utf8(s: Seq<char>) -> Seq<u8> {
    vstd::utf8::encode_utf8(s)
}

/// The state of a connection handler as mathematical values.
pub struct HandlerModel {
    pub state: ConnState,
    /// No message arrived since the watchdog last fired, or since open.
    pub idle: bool,
    /// The watchdog period in milliseconds, fixed at construction.
    pub period: u64,
}

/// What one event does to a handler: its next state and the actions it asks
/// the engine to perform, in order.
pub open spec fn step(h: HandlerModel, e: Event) -> (HandlerModel, Seq<ActionModel>) {
    match e {
        Event::Close(reason) => (
            HandlerModel { state: ConnState::Closed, ..h },
            seq![ActionModel::Notify(CallbackKind::Error, c_string(utf8(reason)))],
        ),
        _ => if h.state == ConnState::Closed {
            (h, seq![])
        } else {
            match e {
                Event::Open => (
                    HandlerModel { state: ConnState::Open, idle: true, ..h },
                    seq![
                        ActionModel::Notify(CallbackKind::Open, c_string(utf8(OPEN_GREETING@))),
                        ActionModel::ArmTimer(h.period),
                    ],
                ),
                Event::Text(m) => if m.len() == 0 {
                    (h, seq![])
                } else {
                    (
                        HandlerModel { idle: false, ..h },
                        seq![ActionModel::Notify(CallbackKind::Message, normalized(m))],
                    )
                },
                Event::NonText => (h, seq![ActionModel::Reply(INVALID_TYPE_REPLY@)]),
                Event::Timeout => if h.idle {
                    (
                        HandlerModel { state: ConnState::Closed, ..h },
                        seq![ActionModel::Close(TIMEOUT_REASON@)],
                    )
                } else {
                    (HandlerModel { idle: true, ..h }, seq![ActionModel::ArmTimer(h.period)])
                },
                Event::Close(_) => (h, seq![]),
            }
        },
    }
}

/// A sequence of events delivered in order: the final state and every action
/// asked for, in order.
pub open spec fn run(h: HandlerModel, events: Seq<Event>) -> (HandlerModel, Seq<ActionModel>)
    decreases events.len(),
{
    if events.len() == 0 {
        (h, seq![])
    } else {
        let (h1, a1) = step(h, events[0]);
        let (h2, a2) = run(h1, events.drop_first());
        (h2, a1 + a2)
    }
}

/// The per-connection state machine: idle watchdog and callback dispatch.
///
/// It performs no I/O. Each event method returns the actions the protocol
/// engine must carry out for it.
pub struct WSServerHandler {
    state: ConnState,
    is_timeout: bool,
    wdt_period_ms: u64,
}

impl View for WSServerHandler {
    type V = HandlerModel;

    closed spec fn view(&self) -> HandlerModel {
        HandlerModel { state: self.state, idle: self.is_timeout, period: self.wdt_period_ms }
    }
}

impl WSServerHandler {
    /// A handler for a newly accepted connection whose watchdog period is
    /// `wdt_period_ms`.
    pub fn new(wdt_period_ms: u64) -> (r: Self)
        ensures
            r@ == (HandlerModel { state: ConnState::Connecting, idle: true, period: wdt_period_ms }),
    {
        WSServerHandler { state: ConnState::Connecting, is_timeout: true, wdt_period_ms }
    }

    /// The connection's state.
    pub fn state(&self) -> (r: ConnState)
        ensures
            r == self@.state,
    {
        self.state
    }

    /// The watchdog period this connection uses, in milliseconds.
    pub fn wdt_period_ms(&self) -> (r: u64)
        ensures
            r == self@.period,
    {
        self.wdt_period_ms
    }

    /// The action that sends `msg` as a text frame to this connection.
    pub fn send_message(&self, msg: &str) -> (r: Action)
        ensures
            r@ == ActionModel::Reply(msg@),
    {
        Action::Reply(msg.to_owned())
    }

    /// The handshake completed: notify the open callback and arm the
    /// watchdog.
    pub fn on_open(&mut self) -> (r: Vec<Action>)
        ensures
            (final(self)@, actions_view(r@)) == step(old(self)@, Event::Open),
    {
        if self.state == ConnState::Closed {
            return Vec::new();
        }
        self.state = ConnState::Open;
        self.is_timeout = true;
        let mut r = Vec::new();
        r.push(Action::Notify(CallbackKind::Open, to_c_bytes(OPEN_GREETING)));
        r.push(Action::ArmTimer(self.wdt_period_ms));
        proof {
            assert(actions_view(r@) =~= step(old(self)@, Event::Open).1);
        }
        r
    }

    /// A frame arrived. A non-empty text payload counts as activity and goes
    /// to the message callback; an empty one is dropped; any other frame is
    /// answered with an error reply and reaches no callback.
    pub fn on_message(&mut self, frame: Frame) -> (r: Vec<Action>)
        ensures
            (final(self)@, actions_view(r@)) == step(old(self)@, frame_event(frame)),
    {
        let ghost ev = frame_event(frame);
        let mut r = Vec::new();
        if self.state == ConnState::Closed {
            proof {
                assert(actions_view(r@) =~= step(old(self)@, ev).1);
            }
            return r;
        }
        match frame {
            Frame::Text(text) => {
                match normalize_message(text.as_str()) {
                    None => {},
                    Some(bytes) => {
                        self.is_timeout = false;
                        r.push(Action::Notify(CallbackKind::Message, bytes));
                    },
                }
            },
            Frame::Binary(_) => {
                r.push(Action::Reply(INVALID_TYPE_REPLY.to_owned()));
            },
        }
        proof {
            assert(actions_view(r@) =~= step(old(self)@, ev).1);
        }
        r
    }

    /// The watchdog fired. A connection that stayed silent for the whole
    /// period is closed with reason `"Timeout"`; otherwise the timer is armed
    /// for another period.
    pub fn on_timeout(&mut self) -> (r: Vec<Action>)
        ensures
            (final(self)@, actions_view(r@)) == step(old(self)@, Event::Timeout),
    {
        let mut r = Vec::new();
        if self.state != ConnState::Closed {
            if self.is_timeout {
                self.state = ConnState::Closed;
                r.push(Action::Close(TIMEOUT_REASON.to_owned()));
            } else {
                self.is_timeout = true;
                r.push(Action::ArmTimer(self.wdt_period_ms));
            }
        }
        proof {
            assert(actions_view(r@) =~= step(old(self)@, Event::Timeout).1);
        }
        r
    }

    /// The socket closed: notify the error callback with the reason.
    pub fn on_close(&mut self, reason: &str) -> (r: Vec<Action>)
        ensures
            (final(self)@, actions_view(r@)) == step(old(self)@, Event::Close(reason@)),
    {
        self.state = ConnState::Closed;
        let mut r = Vec::new();
        r.push(Action::Notify(CallbackKind::Error, to_c_bytes(reason)));
        proof {
            assert(actions_view(r@) =~= step(old(self)@, Event::Close(reason@)).1);
        }
        r
    }
}

/// Running `a` and then `b` is running `a + b`.
pub proof fn lemma_run_append(h: HandlerModel, a: Seq<Event>, b: Seq<Event>)
    ensures
        run(h, a + b) == ({
            let (h1, x) = run(h, a);
            let (h2, y) = run(h1, b);
            (h2, x + y)
        }),
    decreases a.len(),
{
    if a.len() == 0 {
        assert(a + b =~= b);
        assert(run(h, b).1 =~= seq![] + run(h, b).1);
    } else {
        let (h1, x1) = step(h, a[0]);
        assert((a + b).drop_first() =~= a.drop_first() + b);
        lemma_run_append(h1, a.drop_first(), b);
        let (h2, x2) = run(h1, a.drop_first());
        let (h3, y) = run(h2, b);
        assert(x1 + (x2 + y) =~= (x1 + x2) + y);
    }
}

/// A single event runs as one step.
pub proof fn lemma_run_one(h: HandlerModel, e: Event)
    ensures
        run(h, seq![e]) == step(h, e),
{
    let s = seq![e];
    assert(s[0] == e);
    assert(s.drop_first() =~= Seq::<Event>::empty());
    let (h1, a1) = step(h, e);
    assert(run(h1, s.drop_first()) == (h1, Seq::<ActionModel>::empty()));
    assert(a1 + Seq::<ActionModel>::empty() =~= a1);
}

/// An event that is no activity and no timer: an empty text frame or a frame
/// that is not text.
pub open spec fn is_quiet(e: Event) -> bool {
    match e {
        Event::Text(m) => m.len() == 0,
        Event::NonText => true,
        _ => false,
    }
}

/// Quiet events leave an open connection's state as it is and only ever
/// produce error replies.
pub proof fn lemma_quiet_run(h: HandlerModel, quiet: Seq<Event>)
    requires
        h.state != ConnState::Closed,
        forall|i: int| 0 <= i < quiet.len() ==> is_quiet(#[trigger] quiet[i]),
    ensures
        run(h, quiet).0 == h,
        forall|i: int|
            0 <= i < run(h, quiet).1.len() ==> #[trigger] run(h, quiet).1[i] == ActionModel::Reply(
                INVALID_TYPE_REPLY@,
            ),
    decreases quiet.len(),
{
    if quiet.len() > 0 {
        let rest = quiet.drop_first();
        assert(is_quiet(quiet[0]));
        assert forall|i: int| 0 <= i < rest.len() implies is_quiet(#[trigger] rest[i]) by {
            assert(rest[i] == quiet[i + 1]);
        }
        lemma_quiet_run(h, rest);
    }
}

/// A connection that sends nothing after opening is closed by the watchdog
/// with reason `"Timeout"` when the timer armed at open, for exactly one
/// period, fires; the close that follows reaches the error callback exactly
/// once, with that reason.
pub proof fn lemma_silent_connection_times_out(period: u64, quiet: Seq<Event>)
    requires
        forall|i: int| 0 <= i < quiet.len() ==> is_quiet(#[trigger] quiet[i]),
    ensures
        ({
            let h0 = HandlerModel { state: ConnState::Connecting, idle: true, period };
            let events = seq![Event::Open] + quiet + seq![
                Event::Timeout,
                Event::Close(TIMEOUT_REASON@),
            ];
            let (h, a) = run(h0, events);
            &&& h.state == ConnState::Closed
            &&& a.len() >= 4
            &&& a[0] == ActionModel::Notify(CallbackKind::Open, c_string(utf8(OPEN_GREETING@)))
            &&& a[1] == ActionModel::ArmTimer(period)
            &&& forall|i: int|
                2 <= i < a.len() - 2 ==> #[trigger] a[i] == ActionModel::Reply(INVALID_TYPE_REPLY@)
            &&& a[a.len() - 2] == ActionModel::Close(TIMEOUT_REASON@)
            &&& a[a.len() - 1] == ActionModel::Notify(
                CallbackKind::Error,
                c_string(utf8(TIMEOUT_REASON@)),
            )
        }),
{
    let h0 = HandlerModel { state: ConnState::Connecting, idle: true, period };
    let tail = seq![Event::Timeout, Event::Close(TIMEOUT_REASON@)];
    let events = seq![Event::Open] + quiet + tail;
    assert(events =~= seq![Event::Open] + (quiet + tail));
    lemma_run_append(h0, seq![Event::Open], quiet + tail);
    let (h1, x) = step(h0, Event::Open);
    lemma_run_one(h0, Event::Open);
    lemma_run_append(h1, quiet, tail);
    lemma_quiet_run(h1, quiet);
    let y = run(h1, quiet).1;
    let (h2, t1) = step(h1, Event::Timeout);
    let (h3, t2) = step(h2, Event::Close(TIMEOUT_REASON@));
    assert(tail =~= seq![Event::Timeout] + seq![Event::Close(TIMEOUT_REASON@)]);
    lemma_run_append(h1, seq![Event::Timeout], seq![Event::Close(TIMEOUT_REASON@)]);
    lemma_run_one(h1, Event::Timeout);
    lemma_run_one(h2, Event::Close(TIMEOUT_REASON@));
    let a = x + (y + (t1 + t2));
    assert(run(h0, events) == (h3, a));
    assert forall|i: int| 2 <= i < a.len() - 2 implies #[trigger] a[i] == ActionModel::Reply(
        INVALID_TYPE_REPLY@,
    ) by {
        assert(a[i] == y[i - 2]);
    }
}

/// Whether `events` keep a connection alive: every watchdog firing is
/// preceded by a non-empty text message since the previous firing, or since
/// open. `active` says whether such a message already arrived in the current
/// period.
pub open spec fn kept_alive(active: bool, events: Seq<Event>) -> bool
    decreases events.len(),
{
    if events.len() == 0 {
        true
    } else {
        let rest = events.drop_first();
        match events[0] {
            Event::Open => kept_alive(false, rest),
            Event::Text(m) => kept_alive(active || m.len() > 0, rest),
            Event::Timeout => active && kept_alive(false, rest),
            _ => kept_alive(active, rest),
        }
    }
}

/// A connection that sends a non-empty text message within every watchdog
/// period is never closed by the watchdog: no event sequence that keeps it
/// alive produces a close request.
pub proof fn lemma_active_connection_stays_open(
    h: HandlerModel,
    active: bool,
    events: Seq<Event>,
)
    requires
        h.state != ConnState::Closed ==> h.idle == !active,
        kept_alive(active, events),
    ensures
        forall|i: int|
            0 <= i < run(h, events).1.len() ==> !(#[trigger] run(h, events).1[i] is Close),
    decreases events.len(),
{
    if events.len() > 0 {
        let rest = events.drop_first();
        let (h1, a1) = step(h, events[0]);
        let active1 = match events[0] {
            Event::Open => false,
            Event::Text(m) => active || m.len() > 0,
            Event::Timeout => false,
            _ => active,
        };
        lemma_active_connection_stays_open(h1, active1, rest);
        let a2 = run(h1, rest).1;
        assert forall|i: int| 0 <= i < a1.len() implies !(#[trigger] a1[i] is Close) by {}
        assert forall|i: int| 0 <= i < (a1 + a2).len() implies !(#[trigger] (a1 + a2)[i] is Close) by {
            if i >= a1.len() {
                assert((a1 + a2)[i] == a2[i - a1.len()]);
            }
        }
    }
}

} // verus!
