use vstd::prelude::*;
use vstd::string::StringSliceAdditionalSpecFns;
use crate::text::{push_bytes, push_decimal, decimal_of};

verus! {

/// Flags handed to the channel's `Connect` request.
pub const CONNECT_FLAGS: u32 = 0;

/// State of the channel as the service reports it.
#[derive(Clone, Copy, PartialEq, Eq, Debug, Structural)]
pub enum ChannelState {
    Disconnected,
    Pending,
    Connected,
}

/// Where one connection epoch stands; each phase but `Failed` waits for the
/// outcome of exactly one request to the service.
#[derive(Clone, Copy, PartialEq, Eq, Debug, Structural)]
pub enum Phase {
    /// Waiting for plugin init and capability resolution.
    Initializing,
    /// Waiting for `Connect` to return.
    Connecting,
    /// Waiting for the channel state, while negotiating.
    ReadingState,
    /// Waiting for a poll to return, while negotiating.
    Polling,
    /// Waiting out the fixed interval between two connect attempts.
    Sleeping,
    /// Waiting for the channel object to be created.
    Creating,
    /// Object live, lock released; waiting for a poll to return.
    Awaiting,
    /// Object live; waiting for the channel state.
    Checking,
    /// Waiting for the channel object to be destroyed.
    Destroying,
    /// Epoch over; waiting out the interval before the next one.
    Backoff,
    /// A capability could not be resolved: the process must abort.
    Failed,
}

/// Outcome of a request, handed back by whoever performed it.
#[derive(Clone, Copy, Debug)]
pub enum Event {
    /// Init ran; `true` when every capability resolved to an entry point.
    InitDone(bool),
    /// `Connect` returned this code.
    ConnectDone(i32),
    /// The channel state was read.
    StateRead(ChannelState),
    /// A poll returned.
    PollDone,
    /// The fixed interval elapsed.
    SleepDone,
    /// Object creation returned a handle, or failed.
    ObjectCreated(Option<u64>),
    /// The object was destroyed.
    ObjectDestroyed,
}

/// The next request to perform against the service.
#[derive(Clone, Copy, PartialEq, Eq, Debug, Structural)]
pub enum Action {
    /// Call plugin init and resolve the channel interface.
    Init,
    /// Issue a connect request with these flags.
    Connect(u32),
    /// Read the channel state.
    ReadState,
    /// Poll the service.
    Poll,
    /// Sleep for the fixed retry interval.
    Sleep,
    /// Create the named channel object with its sink.
    CreateObject,
    /// Destroy the channel object with this handle.
    DestroyObject(u64),
    /// Abort the process.
    Abort,
    /// Nothing to do: the event did not answer the pending request.
    Idle,
}

/// A progress report, for observability only.
#[derive(Clone, Copy, PartialEq, Eq, Debug, Structural)]
pub enum Status {
    Connect { flags: u32, result: i32 },
    ChannelState(ChannelState),
    Polling,
    ObjectCreated,
    ObjectCreateFailed,
    ObjectDestroyed,
}

/// What one step decided: the request to perform and the reports to emit.
pub struct Step {
    pub action: Action,
    pub reports: Vec<Status>,
}

/// The connection negotiator and channel-object manager of one process.
pub struct Session {
    pub phase: Phase,
    /// Handle of the live channel object, if any.
    pub object: Option<u64>,
    /// A connect request was issued since the last sleep.
    pub connected_since_sleep: bool,
}

/// Phases in which the channel object is live.
pub open spec fn holds_object(p: Phase) -> bool {
    p == Phase::Awaiting || p == Phase::Checking || p == Phase::Destroying
}

/// Phases of the init/connect/poll sequence, run under the capability lock.
pub open spec fn negotiating(p: Phase) -> bool {
    p == Phase::Initializing || p == Phase::Connecting || p == Phase::ReadingState
        || p == Phase::Polling || p == Phase::Sleeping || p == Phase::Creating
}

impl Session {
    pub open spec fn wf(self) -> bool {
        &&& (self.object is Some <==> holds_object(self.phase))
        &&& (self.connected_since_sleep <==> !(self.phase == Phase::Initializing
            || self.phase == Phase::Sleeping || self.phase == Phase::Backoff
            || self.phase == Phase::Failed))
    }
}

pub open spec fn with_phase(s: Session, p: Phase) -> Session {
    Session { phase: p, ..s }
}

/// The transition: next session, request to perform, reports to emit.
pub open spec fn next(s: Session, e: Event) -> (Session, Action, Seq<Status>) {
    let unchanged = (s, Action::Idle, Seq::<Status>::empty());
    match s.phase {
        Phase::Initializing => match e {
            Event::InitDone(ok) => if ok {
                (Session { phase: Phase::Connecting, connected_since_sleep: true, ..s },
                 Action::Connect(CONNECT_FLAGS), Seq::empty())
            } else {
                (with_phase(s, Phase::Failed), Action::Abort, Seq::empty())
            },
            _ => unchanged,
        },
        Phase::Connecting => match e {
            Event::ConnectDone(code) => (with_phase(s, Phase::ReadingState), Action::ReadState,
                seq![Status::Connect { flags: CONNECT_FLAGS, result: code }]),
            _ => unchanged,
        },
        Phase::ReadingState => match e {
            Event::StateRead(st) => if st == ChannelState::Connected {
                (with_phase(s, Phase::Creating), Action::CreateObject,
                 seq![Status::ChannelState(st)])
            } else {
                (with_phase(s, Phase::Polling), Action::Poll,
                 seq![Status::ChannelState(st), Status::Polling])
            },
            _ => unchanged,
        },
        Phase::Polling => match e {
            Event::PollDone => (Session { phase: Phase::Sleeping, connected_since_sleep: false, ..s },
                Action::Sleep, Seq::empty()),
            _ => unchanged,
        },
        Phase::Sleeping => match e {
            Event::SleepDone => (Session { phase: Phase::Connecting, connected_since_sleep: true, ..s },
                Action::Connect(CONNECT_FLAGS), Seq::empty()),
            _ => unchanged,
        },
        Phase::Creating => match e {
            Event::ObjectCreated(h) => match h {
                Some(handle) => (Session { phase: Phase::Awaiting, object: Some(handle), ..s },
                    Action::Poll, seq![Status::ObjectCreated]),
                None => (Session { phase: Phase::Sleeping, connected_since_sleep: false, ..s },
                    Action::Sleep, seq![Status::ObjectCreateFailed]),
            },
            _ => unchanged,
        },
        Phase::Awaiting => match e {
            Event::PollDone => (with_phase(s, Phase::Checking), Action::ReadState, Seq::empty()),
            _ => unchanged,
        },
        Phase::Checking => match e {
            Event::StateRead(st) => if st == ChannelState::Connected {
                (with_phase(s, Phase::Awaiting), Action::Poll, Seq::empty())
            } else {
                (with_phase(s, Phase::Destroying), Action::DestroyObject(s.object->0), Seq::empty())
            },
            _ => unchanged,
        },
        Phase::Destroying => match e {
            Event::ObjectDestroyed => (
                Session { phase: Phase::Backoff, object: None, connected_since_sleep: false },
                Action::Sleep, seq![Status::ObjectDestroyed]),
            _ => unchanged,
        },
        Phase::Backoff => match e {
            Event::SleepDone => (with_phase(s, Phase::Initializing), Action::Init, Seq::empty()),
            _ => unchanged,
        },
        Phase::Failed => unchanged,
    }
}

impl Session {
    /// A session at the start of its first epoch: the caller performs
    /// `Action::Init` and hands back its outcome.
    pub fn new() -> (r: Session)
        ensures
            r.phase == Phase::Initializing,
            r.object is None,
            r.wf(),
    {
        Session { phase: Phase::Initializing, object: None, connected_since_sleep: false }
    }

    /// Whether the capability lock is to be held in the current phase: it is
    /// released while the object waits for invocations.
    pub fn holds_lock(&self) -> (r: bool)
        ensures
            r == negotiating(self.phase),
    {
        match self.phase {
            Phase::Initializing | Phase::Connecting | Phase::ReadingState | Phase::Polling
            | Phase::Sleeping | Phase::Creating => true,
            _ => false,
        }
    }

    /// Takes the outcome of the pending request and decides the next one.
    pub fn step(&mut self, e: Event) -> (r: Step)
        requires
            old(self).wf(),
        ensures
            (*final(self), r.action, r.reports@) == next(*old(self), e),
            final(self).wf(),
    {
        match self.phase {
            Phase::Initializing => match e {
                Event::InitDone(ok) => {
                    if ok {
                        self.phase = Phase::Connecting;
                        self.connected_since_sleep = true;
                        Step { action: Action::Connect(CONNECT_FLAGS), reports: Vec::new() }
                    } else {
                        self.phase = Phase::Failed;
                        Step { action: Action::Abort, reports: Vec::new() }
                    }
                },
                _ => Step { action: Action::Idle, reports: Vec::new() },
            },
            Phase::Connecting => match e {
                Event::ConnectDone(code) => {
                    self.phase = Phase::ReadingState;
                    let reports = vec![Status::Connect { flags: CONNECT_FLAGS, result: code }];
                    Step { action: Action::ReadState, reports }
                },
                _ => Step { action: Action::Idle, reports: Vec::new() },
            },
            Phase::ReadingState => match e {
                Event::StateRead(st) => {
                    if st == ChannelState::Connected {
                        self.phase = Phase::Creating;
                        Step { action: Action::CreateObject, reports: vec![Status::ChannelState(st)] }
                    } else {
                        self.phase = Phase::Polling;
                        let reports = vec![Status::ChannelState(st), Status::Polling];
                        Step { action: Action::Poll, reports }
                    }
                },
                _ => Step { action: Action::Idle, reports: Vec::new() },
            },
            Phase::Polling => match e {
                Event::PollDone => {
                    self.phase = Phase::Sleeping;
                    self.connected_since_sleep = false;
                    Step { action: Action::Sleep, reports: Vec::new() }
                },
                _ => Step { action: Action::Idle, reports: Vec::new() },
            },
            Phase::Sleeping => match e {
                Event::SleepDone => {
                    self.phase = Phase::Connecting;
                    self.connected_since_sleep = true;
                    Step { action: Action::Connect(CONNECT_FLAGS), reports: Vec::new() }
                },
                _ => Step { action: Action::Idle, reports: Vec::new() },
            },
            Phase::Creating => match e {
                Event::ObjectCreated(h) => match h {
                    Some(handle) => {
                        self.phase = Phase::Awaiting;
                        self.object = Some(handle);
                        Step { action: Action::Poll, reports: vec![Status::ObjectCreated] }
                    },
                    None => {
                        self.phase = Phase::Sleeping;
                        self.connected_since_sleep = false;
                        Step { action: Action::Sleep, reports: vec![Status::ObjectCreateFailed] }
                    },
                },
                _ => Step { action: Action::Idle, reports: Vec::new() },
            },
            Phase::Awaiting => match e {
                Event::PollDone => {
                    self.phase = Phase::Checking;
                    Step { action: Action::ReadState, reports: Vec::new() }
                },
                _ => Step { action: Action::Idle, reports: Vec::new() },
            },
            Phase::Checking => match e {
                Event::StateRead(st) => {
                    if st == ChannelState::Connected {
                        self.phase = Phase::Awaiting;
                        Step { action: Action::Poll, reports: Vec::new() }
                    } else {
                        let handle = match self.object {
                            Some(h) => h,
                            None => 0,
                        };
                        self.phase = Phase::Destroying;
                        Step { action: Action::DestroyObject(handle), reports: Vec::new() }
                    }
                },
                _ => Step { action: Action::Idle, reports: Vec::new() },
            },
            Phase::Destroying => match e {
                Event::ObjectDestroyed => {
                    self.phase = Phase::Backoff;
                    self.object = None;
                    self.connected_since_sleep = false;
                    Step { action: Action::Sleep, reports: vec![Status::ObjectDestroyed] }
                },
                _ => Step { action: Action::Idle, reports: Vec::new() },
            },
            Phase::Backoff => match e {
                Event::SleepDone => {
                    self.phase = Phase::Initializing;
                    Step { action: Action::Init, reports: Vec::new() }
                },
                _ => Step { action: Action::Idle, reports: Vec::new() },
            },
            Phase::Failed => Step { action: Action::Idle, reports: Vec::new() },
        }
    }
}

} // verus!

verus! {

/// Name of a channel state in a report.
pub open spec fn state_name(st: ChannelState) -> Seq<u8> {
    match st {
        ChannelState::Disconnected => "<disconnected>".spec_bytes(),
        ChannelState::Pending => "<pending>".spec_bytes(),
        ChannelState::Connected => "<connected>".spec_bytes(),
    }
}

/// The text of a report.
pub open spec fn status_text(s: Status) -> Seq<u8> {
    match s {
        Status::Connect { flags, result } => "Connect (".spec_bytes() + decimal_of(flags as int)
            + ") = ".spec_bytes() + decimal_of(result as int),
        Status::ChannelState(st) => "Channel state = ".spec_bytes() + state_name(st),
        Status::Polling => "Polling...".spec_bytes(),
        Status::ObjectCreated => "Channel object created".spec_bytes(),
        Status::ObjectCreateFailed => "Channel object creation failed".spec_bytes(),
        Status::ObjectDestroyed => "Channel object destroyed".spec_bytes(),
    }
}

impl Status {
    /// The report as ASCII text.
    pub fn text(&self) -> (r: Vec<u8>)
        ensures
            r@ == status_text(*self),
    {
        let mut out: Vec<u8> = Vec::new();
        match *self {
            Status::Connect { flags, result } => {
                push_bytes(&mut out, "Connect (".as_bytes());
                push_decimal(&mut out, flags as i64);
                push_bytes(&mut out, ") = ".as_bytes());
                push_decimal(&mut out, result as i64);
            },
            Status::ChannelState(st) => {
                push_bytes(&mut out, "Channel state = ".as_bytes());
                match st {
                    ChannelState::Disconnected => push_bytes(&mut out, "<disconnected>".as_bytes()),
                    ChannelState::Pending => push_bytes(&mut out, "<pending>".as_bytes()),
                    ChannelState::Connected => push_bytes(&mut out, "<connected>".as_bytes()),
                }
            },
            Status::Polling => push_bytes(&mut out, "Polling...".as_bytes()),
            Status::ObjectCreated => push_bytes(&mut out, "Channel object created".as_bytes()),
            Status::ObjectCreateFailed => {
                push_bytes(&mut out, "Channel object creation failed".as_bytes())
            },
            Status::ObjectDestroyed => push_bytes(&mut out, "Channel object destroyed".as_bytes()),
        }
        assert(out@ =~= status_text(*self));
        out
    }
}

} // verus!
