//! The request poller: data model, transition relation, and the per-tick
//! executable step.

use vstd::prelude::*;
use vstd::string::StringExecFns;

verus! {

// ---------------------------------------------------------------------------
// Executable data model
// ---------------------------------------------------------------------------

/// A tag scan that completed unsuccessfully: no reader, hardware fault, and
/// the like. Recovered locally; only its presence matters to the poller.
#[derive(Debug, PartialEq, Eq)]
pub struct ScanError {
    pub reason: String,
}

/// A user lookup that completed unsuccessfully: unknown tag, network or
/// hardware fault. Recovered locally; only its presence matters.
#[derive(Debug, PartialEq, Eq)]
pub struct LookupError {
    pub reason: String,
}

/// The record a successful user lookup resolves to.
#[derive(Debug, PartialEq, Eq)]
pub struct UserRecord {
    pub username: String,
}

/// What the host observed this tick when it polled the outstanding request.
///
/// `Pending` covers both "no request is outstanding" and "the outstanding
/// request has not resolved yet". A resolution carries the request's result
/// and may be handed to the poller exactly once: the driver delivers each
/// result once, and the request is discarded upon being read to completion.
#[derive(Debug, PartialEq, Eq)]
pub enum PollResult {
    Pending,
    TagScan(Result<Option<String>, ScanError>),
    UserLookup(Result<UserRecord, LookupError>),
}

/// Which request, if any, the poller asks the host to issue after a tick.
#[derive(Debug, PartialEq, Eq)]
pub enum Action {
    Wait,
    IssueTagScan,
    IssueUserLookup(String),
}

/// The poller's own record of the outstanding request: none, a tag scan, or
/// a user lookup keyed by the tag the preceding scan found.
#[derive(Debug, PartialEq, Eq)]
pub enum PollerState {
    Idle,
    AwaitingTag,
    AwaitingUser(String),
}

/// The externally visible state: either no identified user, or the username
/// the last successful lookup resolved to.
#[derive(Debug, PartialEq, Eq)]
pub enum DisplayState {
    NoUser,
    User(String),
}

/// The poller. One instance exists per reader; it is driven by a single
/// scheduler thread, once per tick.
#[derive(Debug, PartialEq, Eq)]
pub struct Poller {
    pub state: PollerState,
    pub display: DisplayState,
}

// ---------------------------------------------------------------------------
// Mathematical model
// ---------------------------------------------------------------------------

/// Spec-level outcome of a tag scan. The reason carried by a failed scan
/// never influences a transition, so the model keeps only the shape.
pub enum ScanModel {
    Found(Seq<char>),
    Absent,
    Failed,
}

/// Spec-level outcome of a user lookup.
pub enum LookupModel {
    Found(Seq<char>),
    Failed,
}

/// Spec-level poll observation.
pub enum EventModel {
    Pending,
    TagScan(ScanModel),
    UserLookup(LookupModel),
}

/// Spec-level action.
pub enum ActionModel {
    Wait,
    IssueTagScan,
    IssueUserLookup(Seq<char>),
}

/// Spec-level poller state.
pub enum StateModel {
    Idle,
    AwaitingTag,
    AwaitingUser(Seq<char>),
}

/// Spec-level display state.
pub enum DisplayModel {
    NoUser,
    User(Seq<char>),
}

/// Spec-level poller.
pub struct PollerModel {
    pub state: StateModel,
    pub display: DisplayModel,
}

impl View for ScanError {
    type V = Seq<char>;

    open spec fn view(&self) -> Seq<char> {
        self.reason@
    }
}

impl View for LookupError {
    type V = Seq<char>;

    open spec fn view(&self) -> Seq<char> {
        self.reason@
    }
}

impl View for UserRecord {
    type V = Seq<char>;

    open spec fn view(&self) -> Seq<char> {
        self.username@
    }
}

impl View for PollResult {
    type V = EventModel;

    open spec fn view(&self) -> EventModel {
        match self {
            PollResult::Pending => EventModel::Pending,
            PollResult::TagScan(Ok(Some(tag))) => EventModel::TagScan(ScanModel::Found(tag@)),
            PollResult::TagScan(Ok(None)) => EventModel::TagScan(ScanModel::Absent),
            PollResult::TagScan(Err(_)) => EventModel::TagScan(ScanModel::Failed),
            PollResult::UserLookup(Ok(rec)) => EventModel::UserLookup(LookupModel::Found(rec@)),
            PollResult::UserLookup(Err(_)) => EventModel::UserLookup(LookupModel::Failed),
        }
    }
}

impl View for Action {
    type V = ActionModel;

    open spec fn view(&self) -> ActionModel {
        match self {
            Action::Wait => ActionModel::Wait,
            Action::IssueTagScan => ActionModel::IssueTagScan,
            Action::IssueUserLookup(tag) => ActionModel::IssueUserLookup(tag@),
        }
    }
}

impl View for PollerState {
    type V = StateModel;

    open spec fn view(&self) -> StateModel {
        match self {
            PollerState::Idle => StateModel::Idle,
            PollerState::AwaitingTag => StateModel::AwaitingTag,
            PollerState::AwaitingUser(tag) => StateModel::AwaitingUser(tag@),
        }
    }
}

impl View for DisplayState {
    type V = DisplayModel;

    open spec fn view(&self) -> DisplayModel {
        match self {
            DisplayState::NoUser => DisplayModel::NoUser,
            DisplayState::User(name) => DisplayModel::User(name@),
        }
    }
}

impl View for Poller {
    type V = PollerModel;

    open spec fn view(&self) -> PollerModel {
        PollerModel { state: self.state@, display: self.display@ }
    }
}

// ---------------------------------------------------------------------------
// The transition relation
// ---------------------------------------------------------------------------

/// The poller's state just after construction: nothing outstanding, no user.
pub open spec fn init_model() -> PollerModel {
    PollerModel { state: StateModel::Idle, display: DisplayModel::NoUser }
}

/// An observation the driver can actually deliver in a given state: a result
/// comes only from a request of the kind that is outstanding, and at most
/// once. `Pending` is possible in every state.
pub open spec fn event_fits(s: StateModel, ev: EventModel) -> bool {
    match ev {
        EventModel::Pending => true,
        EventModel::TagScan(_) => s is AwaitingTag,
        EventModel::UserLookup(_) => s is AwaitingUser,
    }
}

/// One tick of the poller: from state and observation to next state and the
/// action the host is asked to perform.
///
/// A fresh tag scan is issued only on a tick that begins idle, so a tick
/// that consumes a resolution never issues a scan itself; the scan follows
/// on the next idle tick.
pub open spec fn step(s: PollerModel, ev: EventModel) -> (PollerModel, ActionModel) {
    match ev {
        EventModel::Pending => {
            if s.state is Idle {
                (
                    PollerModel { state: StateModel::AwaitingTag, display: s.display },
                    ActionModel::IssueTagScan,
                )
            } else {
                (s, ActionModel::Wait)
            }
        },
        EventModel::TagScan(outcome) => {
            match outcome {
                ScanModel::Found(tag) => (
                    PollerModel { state: StateModel::AwaitingUser(tag), display: s.display },
                    ActionModel::IssueUserLookup(tag),
                ),
                ScanModel::Absent | ScanModel::Failed => (
                    PollerModel { state: StateModel::Idle, display: DisplayModel::NoUser },
                    ActionModel::Wait,
                ),
            }
        },
        EventModel::UserLookup(outcome) => {
            match outcome {
                LookupModel::Found(name) => (
                    PollerModel { state: StateModel::Idle, display: DisplayModel::User(name) },
                    ActionModel::Wait,
                ),
                LookupModel::Failed => (
                    PollerModel { state: StateModel::Idle, display: s.display },
                    ActionModel::Wait,
                ),
            }
        },
    }
}

/// The line pushed to the text display for a given display state.
pub open spec fn display_line(d: DisplayModel) -> Seq<char> {
    match d {
        DisplayModel::NoUser => "No user"@,
        DisplayModel::User(name) => "User: "@ + name,
    }
}

// ---------------------------------------------------------------------------
// Executable poller
// ---------------------------------------------------------------------------

impl Poller {
    /// A poller with no outstanding request and no identified user.
    pub fn new() -> (p: Poller)
        ensures
            p@ == init_model(),
    {
        Poller { state: PollerState::Idle, display: DisplayState::NoUser }
    }

    /// Whether `ev` is an observation the driver can deliver in the current
    /// state: the guard a host checks before handing `ev` to [`Self::tick`].
    pub fn accepts(&self, ev: &PollResult) -> (r: bool)
        ensures
            r == event_fits(self@.state, ev@),
    {
        match ev {
            PollResult::Pending => true,
            PollResult::TagScan(_) => matches!(self.state, PollerState::AwaitingTag),
            PollResult::UserLookup(_) => matches!(self.state, PollerState::AwaitingUser(_)),
        }
    }

    /// One scheduling tick. `ev` is what polling the outstanding request
    /// returned this tick; the result is the request the host must issue,
    /// if any, before the next tick.
    pub fn tick(&mut self, ev: PollResult) -> (a: Action)
        requires
            event_fits(old(self)@.state, ev@),
        ensures
            (final(self)@, a@) == step(old(self)@, ev@),
    {
        match ev {
            PollResult::Pending => {
                match self.state {
                    PollerState::Idle => {
                        self.state = PollerState::AwaitingTag;
                        Action::IssueTagScan
                    },
                    _ => Action::Wait,
                }
            },
            PollResult::TagScan(outcome) => {
                match outcome {
                    Ok(Some(tag)) => {
                        self.state = PollerState::AwaitingUser(tag.clone());
                        Action::IssueUserLookup(tag)
                    },
                    _ => {
                        self.state = PollerState::Idle;
                        self.display = DisplayState::NoUser;
                        Action::Wait
                    },
                }
            },
            PollResult::UserLookup(outcome) => {
                self.state = PollerState::Idle;
                match outcome {
                    Ok(rec) => {
                        self.display = DisplayState::User(rec.username);
                    },
                    Err(_) => {},
                }
                Action::Wait
            },
        }
    }

    /// The human-readable line for the current display state: "No user", or
    /// "User: " followed by the identified username.
    pub fn display_string(&self) -> (s: String)
        ensures
            s@ == display_line(self@.display),
    {
        match &self.display {
            DisplayState::NoUser => String::from_str("No user"),
            DisplayState::User(name) => String::from_str("User: ").concat(name.as_str()),
        }
    }
}

} // verus!
