//! The connection state machine.
//!
//! A `Manager` owns the state of the one websocket connection. Each step the
//! driver asks it for an `Action`, performs that action against the network
//! (open a session, or wait on the session and the outbound channel at once),
//! and hands the outcome back as a `Readiness`. `Manager::step` then decides
//! the next state, the event to publish, and how long to wait first.
use vstd::prelude::*;

verus! {

/// Capacity of the outbound channel allocated for each session.
pub const OUTBOUND_CAPACITY: usize = 100;

/// Fixed delay after a failed connection attempt, in milliseconds.
pub const BACKOFF_MS: u64 = 1000;

/// Handle to the outbound channel of one session, named by the session's number.
#[derive(Clone, Copy, Debug, PartialEq, Eq, Structural)]
pub struct Connection(pub u64);

/// The manager's state: no live socket, or the live session with this number,
/// which also owns the receiving end of that session's outbound channel.
#[derive(Clone, Copy, Debug, PartialEq, Eq, Structural)]
pub enum State {
    Disconnected,
    Connected(u64),
}

/// What the consumer observes.
#[derive(Clone, Debug)]
pub enum Event {
    Connected(Connection),
    Disconnected,
    MessageReceived(String),
}

/// A frame read from the session: a text frame, or any other kind.
#[derive(Clone, Debug)]
pub enum Frame {
    Text(String),
    Other,
}

/// What the network work of one step came to.
#[derive(Clone, Debug)]
pub enum Readiness {
    /// A session was opened.
    Opened,
    /// Opening a session failed.
    OpenFailed,
    /// The session delivered a frame.
    Inbound(Frame),
    /// Reading failed, or the peer closed the stream.
    ReadFailed,
    /// A message from the outbound channel was written to the session.
    Written,
    /// Writing a message from the outbound channel failed.
    WriteFailed,
}

/// The network work that the current state asks for.
#[derive(Clone, Copy, Debug, PartialEq, Eq, Structural)]
pub enum Action {
    /// Open a new session against the endpoint.
    Open,
    /// Wait for whichever comes first: a frame on the session, or a message
    /// on the outbound channel (which is then written).
    Wait,
}

/// The result of one step: at most one event, published after `delay_ms`.
#[derive(Clone, Debug)]
pub struct Step {
    pub event: Option<Event>,
    pub delay_ms: u64,
}

/// Event as seen by contracts.
pub ghost enum Signal {
    Connected(nat),
    Disconnected,
    Message(Seq<char>),
}

/// Manager as seen by contracts: the live session, if any, and how many
/// sessions have been opened so far.
pub ghost struct Snapshot {
    pub live: Option<nat>,
    pub opened: nat,
}

/// One step as seen by contracts.
pub ghost struct Outcome {
    pub prior: Snapshot,
    pub next: Snapshot,
    pub signal: Option<Signal>,
    pub delay: nat,
}

impl Event {
    pub open spec fn signal(&self) -> Signal {
        match self {
            Event::Connected(c) => Signal::Connected(c.0 as nat),
            Event::Disconnected => Signal::Disconnected,
            Event::MessageReceived(t) => Signal::Message(t@),
        }
    }
}

pub open spec fn signal_of(e: Option<Event>) -> Option<Signal> {
    match e {
        Some(ev) => Some(ev.signal()),
        None => None,
    }
}

/// The live session is always the one opened last.
pub open spec fn well_formed(s: Snapshot) -> bool {
    s.live is Some ==> s.live->0 + 1 == s.opened
}

/// Whether a step from `s` on `input` is a connection attempt that failed.
pub open spec fn failed_attempt(s: Snapshot, input: Readiness) -> bool {
    s.live is None && input is OpenFailed
}

/// One step of the machine.
pub open spec fn transition(s: Snapshot, input: Readiness) -> Outcome {
    let same = Outcome { prior: s, next: s, signal: None, delay: 0 };
    match s.live {
        None => match input {
            Readiness::Opened => Outcome {
                prior: s,
                next: Snapshot { live: Some(s.opened), opened: s.opened + 1 },
                signal: Some(Signal::Connected(s.opened)),
                delay: 0,
            },
            Readiness::OpenFailed => Outcome {
                signal: Some(Signal::Disconnected),
                delay: BACKOFF_MS as nat,
                ..same
            },
            _ => same,
        },
        Some(_) => match input {
            Readiness::Inbound(Frame::Text(t)) => Outcome { signal: Some(Signal::Message(t@)), ..same },
            Readiness::ReadFailed | Readiness::WriteFailed => Outcome {
                next: Snapshot { live: None, ..s },
                signal: Some(Signal::Disconnected),
                ..same
            },
            _ => same,
        },
    }
}

/// The steps of a run of inputs from `s`, in order.
pub open spec fn run(s: Snapshot, inputs: Seq<Readiness>) -> Seq<Outcome>
    decreases inputs.len(),
{
    if inputs.len() == 0 {
        Seq::empty()
    } else {
        let o = transition(s, inputs[0]);
        seq![o] + run(o.next, inputs.drop_first())
    }
}

/// Owner of the connection state, threaded from one step to the next.
pub struct Manager {
    state: State,
    opened: u64,
}

impl View for Manager {
    type V = Snapshot;

    closed spec fn view(&self) -> Snapshot {
        Snapshot {
            live: match self.state {
                State::Connected(id) => Some(id as nat),
                State::Disconnected => None,
            },
            opened: self.opened as nat,
        }
    }
}

impl Manager {
    pub closed spec fn wf(&self) -> bool {
        &&& match self.state {
            State::Connected(id) => id < self.opened,
            State::Disconnected => true,
        }
        &&& well_formed(self@)
    }

    /// A manager at process start: disconnected, no session opened yet.
    pub fn new() -> (r: Manager)
        ensures
            r.wf(),
            r@ == (Snapshot { live: None, opened: 0 }),
    {
        Manager { state: State::Disconnected, opened: 0 }
    }

    pub fn state(&self) -> (r: State)
        ensures
            r is Disconnected <==> self@.live is None,
            r is Connected ==> self@.live == Some(r->0 as nat),
    {
        self.state
    }

    /// The network work that the next step needs.
    pub fn action(&self) -> (r: Action)
        ensures
            r == (if self@.live is None { Action::Open } else { Action::Wait }),
    {
        match self.state {
            State::Disconnected => Action::Open,
            State::Connected(_) => Action::Wait,
        }
    }

    /// Whether `handle` belongs to the live session, so that what is sent
    /// through it can still be delivered.
    pub fn accepts(&self, handle: &Connection) -> (r: bool)
        ensures
            r == (self@.live == Some(handle.0 as nat)),
    {
        match self.state {
            State::Connected(id) => id == handle.0,
            State::Disconnected => false,
        }
    }

    /// Whether another session can still be given a number of its own.
    pub fn can_open(&self) -> (r: bool)
        ensures
            r == (self@.opened < u64::MAX),
    {
        self.opened < u64::MAX
    }

    /// Decides one step from what its network work came to. An input that
    /// does not fit the current state (a frame while disconnected, an opened
    /// session while connected) changes nothing and publishes nothing.
    pub fn step(&mut self, input: Readiness) -> (r: Step)
        requires
            old(self).wf(),
            old(self)@.live is None && input is Opened ==> old(self)@.opened < u64::MAX,
        ensures
            final(self).wf(),
            final(self)@ == transition(old(self)@, input).next,
            signal_of(r.event) == transition(old(self)@, input).signal,
            r.delay_ms as nat == transition(old(self)@, input).delay,
    {
        match self.state {
            State::Disconnected => match input {
                Readiness::Opened => {
                    let id = self.opened;
                    self.state = State::Connected(id);
                    self.opened = id + 1;
                    Step { event: Some(Event::Connected(Connection(id))), delay_ms: 0 }
                },
                Readiness::OpenFailed => Step { event: Some(Event::Disconnected), delay_ms: BACKOFF_MS },
                _ => Step { event: None, delay_ms: 0 },
            },
            State::Connected(_) => match input {
                Readiness::Inbound(Frame::Text(t)) => Step {
                    event: Some(Event::MessageReceived(t)),
                    delay_ms: 0,
                },
                Readiness::ReadFailed | Readiness::WriteFailed => {
                    self.state = State::Disconnected;
                    Step { event: Some(Event::Disconnected), delay_ms: 0 }
                },
                _ => Step { event: None, delay_ms: 0 },
            },
        }
    }
}

} // verus!
