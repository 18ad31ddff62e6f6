use vstd::prelude::*;

use crate::encoder::Artifact;
use crate::error::CaptureError;

verus! {

/// Where the controller stands in the life of a session.
#[derive(Clone, Copy, Debug, PartialEq, Eq, Structural)]
pub enum Phase {
    /// No session; waiting for the toggle signal to rise.
    Idle,
    /// A session was allocated; the device and encoder are being opened.
    Starting,
    /// Capture is live.
    Recording,
    /// The stream is being released and the encoder finalized.
    Stopping,
}

/// What the controller learns from the world.
#[derive(Debug, PartialEq, Eq)]
pub enum Event {
    /// The toggle signal, as polled.
    Signal(bool),
    /// The encoder and the capture stream of the session are live.
    Opened,
    /// Opening the device, the stream or the encoder failed.
    OpenFailed(CaptureError),
    /// The stream was released and the encoder finalized into this recording.
    Finalized(Artifact),
    /// The stream was released but the encoder could not be finalized.
    FinalizeFailed(CaptureError),
}

/// What the controller asks the world to do.
#[derive(Debug, PartialEq, Eq)]
pub enum Action {
    /// Nothing to do until the next event.
    Wait,
    /// Open an encoder and a capture stream for this session.
    Open { session: u64 },
    /// Pause and release the stream of this session, then finalize its encoder.
    Close { session: u64 },
    /// Hand the finished recording of this session to the dispatcher.
    Dispatch { session: u64, artifact: Artifact },
    /// Report a failure; the session, if any, is over.
    Report(CaptureError),
}

/// The controller's state as a mathematical value.
pub struct ControllerState {
    pub phase: Phase,
    /// The session being started, recorded or stopped (meaningless when idle).
    pub session: nat,
    /// The number the next session will get.
    pub next_session: nat,
    /// The toggle signal as last polled.
    pub signal: bool,
}

/// The state the controller is created in: idle, the first session numbered 1.
pub open spec fn initial_state() -> ControllerState {
    ControllerState { phase: Phase::Idle, session: 0, next_session: 1, signal: false }
}

/// The phase and action of one step, before the polled signal is recorded.
pub open spec fn decide(s: ControllerState, e: Event) -> (ControllerState, Action) {
    match s.phase {
        Phase::Idle => match e {
            Event::Signal(true) => if s.signal {
                (s, Action::Wait)
            } else {
                (
                    ControllerState {
                        phase: Phase::Starting,
                        session: s.next_session,
                        next_session: s.next_session + 1,
                        ..s
                    },
                    Action::Open { session: s.next_session as u64 },
                )
            },
            _ => (s, Action::Wait),
        },
        Phase::Starting => match e {
            Event::Opened => (ControllerState { phase: Phase::Recording, ..s }, Action::Wait),
            Event::OpenFailed(err) => (ControllerState { phase: Phase::Idle, ..s }, Action::Report(err)),
            _ => (s, Action::Wait),
        },
        Phase::Recording => match e {
            Event::Signal(false) => (
                ControllerState { phase: Phase::Stopping, ..s },
                Action::Close { session: s.session as u64 },
            ),
            _ => (s, Action::Wait),
        },
        Phase::Stopping => match e {
            Event::Finalized(a) => (
                ControllerState { phase: Phase::Idle, ..s },
                if a.empty() {
                    Action::Report(CaptureError::EmptyArtifact)
                } else {
                    Action::Dispatch { session: s.session as u64, artifact: a }
                },
            ),
            Event::FinalizeFailed(err) => (
                ControllerState { phase: Phase::Idle, ..s },
                Action::Report(err),
            ),
            _ => (s, Action::Wait),
        },
    }
}

/// One step of the session state machine. A session opens only when the
/// signal rises while idle; every poll records the signal it saw.
pub open spec fn transition(s: ControllerState, e: Event) -> (ControllerState, Action) {
    let (next, action) = decide(s, e);
    match e {
        Event::Signal(on) => (ControllerState { signal: on, ..next }, action),
        _ => (next, action),
    }
}

/// How many polls in `events` see the signal rise, `last` being the signal
/// polled before them.
pub open spec fn rising_edges(last: bool, events: Seq<Event>) -> nat
    decreases events.len(),
{
    if events.len() == 0 {
        0
    } else {
        match events[0] {
            Event::Signal(on) => (if on && !last { 1nat } else { 0nat }) + rising_edges(
                on,
                events.drop_first(),
            ),
            _ => rising_edges(last, events.drop_first()),
        }
    }
}

/// The states and actions of a run of events from `s`, in order.
pub open spec fn run(s: ControllerState, events: Seq<Event>) -> (ControllerState, Seq<Action>)
    decreases events.len(),
{
    if events.len() == 0 {
        (s, Seq::empty())
    } else {
        let (next, action) = transition(s, events[0]);
        let (last, rest) = run(next, events.drop_first());
        (last, seq![action] + rest)
    }
}

/// Whether a session is held: allocated and not yet finished.
pub open spec fn holds_session(s: ControllerState) -> nat {
    match s.phase {
        Phase::Idle => 0,
        _ => 1,
    }
}

/// How many of `actions` hand a recording to the dispatcher.
pub open spec fn dispatches(actions: Seq<Action>) -> nat
    decreases actions.len(),
{
    if actions.len() == 0 {
        0
    } else {
        (if actions[0] is Dispatch { 1nat } else { 0nat }) + dispatches(actions.drop_first())
    }
}

/// How many of `actions` open a session.
pub open spec fn opens(actions: Seq<Action>) -> nat
    decreases actions.len(),
{
    if actions.len() == 0 {
        0
    } else {
        (if actions[0] is Open { 1nat } else { 0nat }) + opens(actions.drop_first())
    }
}

/// `n` polls of the signal at `on`.
pub open spec fn polls(on: bool, n: nat) -> Seq<Event> {
    Seq::new(n, |i: int| Event::Signal(on))
}

/// `n` waits.
pub open spec fn waits(n: nat) -> Seq<Action> {
    Seq::new(n, |i: int| Action::Wait)
}

/// Once a session is held, a signal that stays on starts nothing: every poll
/// keeps the phase and the session and asks for nothing.
pub proof fn lemma_signal_on_while_active(s: ControllerState, n: nat)
    requires
        s.phase != Phase::Idle,
    ensures
        run(s, polls(true, n)).0.phase == s.phase,
        run(s, polls(true, n)).0.session == s.session,
        run(s, polls(true, n)).0.next_session == s.next_session,
        run(s, polls(true, n)).1 == waits(n),
    decreases n,
{
    if n > 0 {
        let m = (n - 1) as nat;
        assert(polls(true, n).drop_first() =~= polls(true, m));
        lemma_signal_on_while_active(transition(s, Event::Signal(true)).0, m);
        assert(seq![Action::Wait] + waits(m) =~= waits(n));
    } else {
        assert(waits(0) =~= Seq::<Action>::empty());
    }
}

/// While idle, a signal that stays off does nothing: no session, no recording.
pub proof fn lemma_signal_off_while_idle(s: ControllerState, n: nat)
    requires
        s.phase == Phase::Idle,
    ensures
        run(s, polls(false, n)).0.phase == Phase::Idle,
        run(s, polls(false, n)).0.next_session == s.next_session,
        run(s, polls(false, n)).1 == waits(n),
        dispatches(run(s, polls(false, n)).1) == 0,
    decreases n,
{
    if n > 0 {
        let m = (n - 1) as nat;
        assert(polls(false, n).drop_first() =~= polls(false, m));
        lemma_signal_off_while_idle(transition(s, Event::Signal(false)).0, m);
        assert(seq![Action::Wait] + waits(m) =~= waits(n));
        assert(waits(n).drop_first() =~= waits(m));
    } else {
        assert(waits(0) =~= Seq::<Action>::empty());
    }
}

/// Over any run of events, each recording handed to the dispatcher belongs
/// to a session that was opened in the run, or was held when it began: one
/// recording per rising edge at most.
pub proof fn lemma_one_dispatch_per_session(s: ControllerState, events: Seq<Event>)
    ensures
        dispatches(run(s, events).1) + holds_session(run(s, events).0) <= opens(run(s, events).1)
            + holds_session(s),
    decreases events.len(),
{
    if events.len() > 0 {
        let (next, action) = transition(s, events[0]);
        let (last, rest) = run(next, events.drop_first());
        lemma_one_dispatch_per_session(next, events.drop_first());
        let all = seq![action] + rest;
        assert(all.drop_first() =~= rest);
        assert(all[0] == action);
    }
}

/// Over any run of events, sessions open only on rising edges of the signal:
/// no more sessions start, and so no more recordings are dispatched, than
/// the polls see the signal rise (plus the session held at the start).
pub proof fn lemma_sessions_follow_rising_edges(s: ControllerState, events: Seq<Event>)
    ensures
        opens(run(s, events).1) <= rising_edges(s.signal, events),
        dispatches(run(s, events).1) <= rising_edges(s.signal, events) + holds_session(s),
    decreases events.len(),
{
    lemma_one_dispatch_per_session(s, events);
    if events.len() > 0 {
        let (next, action) = transition(s, events[0]);
        let (last, rest) = run(next, events.drop_first());
        lemma_sessions_follow_rising_edges(next, events.drop_first());
        let all = seq![action] + rest;
        assert(all.drop_first() =~= rest);
        assert(all[0] == action);
    }
}

/// A session that ends with an empty recording is not dispatched: the
/// controller reports the recording as empty and goes idle.
pub proof fn lemma_empty_recording_not_dispatched(s: ControllerState, a: Artifact)
    requires
        s.phase == Phase::Stopping,
        a.sample_count == 0,
    ensures
        transition(s, Event::Finalized(a)).0.phase == Phase::Idle,
        transition(s, Event::Finalized(a)).1 == Action::Report(CaptureError::EmptyArtifact),
{
}

/// A rising signal whose device or encoder cannot be opened leaves the
/// controller idle with the failure reported and nothing dispatched; it
/// waits for the signal to rise again.
pub proof fn lemma_failed_open_stays_idle(s: ControllerState, err: CaptureError)
    requires
        s.phase == Phase::Idle,
        !s.signal,
    ensures
        run(s, seq![Event::Signal(true), Event::OpenFailed(err)]).0.phase == Phase::Idle,
        run(s, seq![Event::Signal(true), Event::OpenFailed(err)]).1 == seq![
            Action::Open { session: s.next_session as u64 },
            Action::Report(err),
        ],
        dispatches(run(s, seq![Event::Signal(true), Event::OpenFailed(err)]).1) == 0,
{
    let events = seq![Event::Signal(true), Event::OpenFailed(err)];
    let s1 = transition(s, Event::Signal(true)).0;
    assert(events.drop_first() =~= seq![Event::OpenFailed(err)]);
    assert(seq![Event::OpenFailed(err)].drop_first() =~= Seq::<Event>::empty());
    let (s2, a2) = transition(s1, Event::OpenFailed(err));
    assert(run(s2, Seq::<Event>::empty()).1 == Seq::<Action>::empty());
    assert(seq![a2] + Seq::<Action>::empty() =~= seq![a2]);
    assert(run(s1, seq![Event::OpenFailed(err)]).1 =~= seq![a2]);
    let actions = run(s, events).1;
    assert(actions =~= seq![Action::Open { session: s.next_session as u64 }, Action::Report(err)]);
    assert(actions.drop_first() =~= seq![Action::Report(err)]);
    assert(actions.drop_first().drop_first() =~= Seq::<Action>::empty());
    assert(dispatches(actions.drop_first().drop_first()) == 0);
    assert(dispatches(actions.drop_first()) == 0);
}

/// A session whose encoder cannot be finalized is abandoned, and, the
/// signal being off as when the session was closed, the next rising signal
/// opens a new session.
pub proof fn lemma_recovers_after_failed_finalize(s: ControllerState, err: CaptureError)
    requires
        s.phase == Phase::Stopping,
        !s.signal,
    ensures
        transition(s, Event::FinalizeFailed(err)).0.phase == Phase::Idle,
        transition(s, Event::FinalizeFailed(err)).1 == Action::Report(err),
        transition(transition(s, Event::FinalizeFailed(err)).0, Event::Signal(true)).1
            == (Action::Open { session: s.next_session as u64 }),
{
}

/// The toggle-driven session state machine: at most one session at a time,
/// started on a rising signal and stopped on a falling one.
pub struct SessionController {
    phase: Phase,
    session: u64,
    next_session: u64,
    signal: bool,
}

impl View for SessionController {
    type V = ControllerState;

    closed spec fn view(&self) -> ControllerState {
        ControllerState {
            phase: self.phase,
            session: self.session as nat,
            next_session: self.next_session as nat,
            signal: self.signal,
        }
    }
}

impl SessionController {
    pub fn new() -> (r: Self)
        ensures
            r@ == initial_state(),
    {
        SessionController { phase: Phase::Idle, session: 0, next_session: 1, signal: false }
    }

    pub fn phase(&self) -> (r: Phase)
        ensures
            r == self@.phase,
    {
        self.phase
    }

    /// The session being started, recorded or stopped.
    pub fn session(&self) -> (r: u64)
        ensures
            r == self@.session,
    {
        self.session
    }

    /// The number the next session will get.
    pub fn next_session(&self) -> (r: u64)
        ensures
            r == self@.next_session,
    {
        self.next_session
    }

    /// Takes one event and returns what to do about it.
    pub fn step(&mut self, event: Event) -> (r: Action)
        requires
            old(self)@.next_session < u64::MAX,
        ensures
            (final(self)@, r) == transition(old(self)@, event),
    {
        let last = self.signal;
        if let Event::Signal(on) = event {
            self.signal = on;
        }
        match self.phase {
            Phase::Idle => match event {
                Event::Signal(true) if last => Action::Wait,
                Event::Signal(true) => {
                    self.phase = Phase::Starting;
                    self.session = self.next_session;
                    self.next_session = self.next_session + 1;
                    Action::Open { session: self.session }
                },
                _ => Action::Wait,
            },
            Phase::Starting => match event {
                Event::Opened => {
                    self.phase = Phase::Recording;
                    Action::Wait
                },
                Event::OpenFailed(err) => {
                    self.phase = Phase::Idle;
                    Action::Report(err)
                },
                _ => Action::Wait,
            },
            Phase::Recording => match event {
                Event::Signal(false) => {
                    self.phase = Phase::Stopping;
                    Action::Close { session: self.session }
                },
                _ => Action::Wait,
            },
            Phase::Stopping => match event {
                Event::Finalized(a) => {
                    self.phase = Phase::Idle;
                    if a.is_empty() {
                        Action::Report(CaptureError::EmptyArtifact)
                    } else {
                        Action::Dispatch { session: self.session, artifact: a }
                    }
                },
                Event::FinalizeFailed(err) => {
                    self.phase = Phase::Idle;
                    Action::Report(err)
                },
                _ => Action::Wait,
            },
        }
    }
}

} // verus!
