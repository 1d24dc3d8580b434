//! The sync driver: catching up with the server, then listening.
//!
//! The driver first asks for single sync rounds until one succeeds, which
//! skips whatever was sent while the bot was away, and then lets the
//! continuous sync run. After every successful round it has the round's
//! cursor persisted before anything else happens. The rounds and the
//! writing are outside work: [`SyncDriver::start`] and [`SyncDriver::step`]
//! return what is to be done next, and the caller hands the outcome back
//! as a [`SyncEvent`].

use crate::text::{clone_text, text_of};
use vstd::prelude::*;

verus! {

/// Why the sync loop ended.
#[derive(Clone, Copy, Debug, PartialEq, Eq, Structural)]
pub enum SyncError {
    /// A sync round failed while listening.
    Transport,
    /// A cursor could not be persisted.
    Persist,
}

impl SyncError {
    /// The error in words.
    pub open spec fn describe_text(self) -> Seq<char> {
        match self {
            SyncError::Transport => "a sync round failed"@,
            SyncError::Persist => "the sync token could not be persisted"@,
        }
    }

    /// The error in words.
    pub fn describe(&self) -> (text: &'static str)
        ensures
            text@ == self.describe_text(),
    {
        match self {
            SyncError::Transport => "a sync round failed",
            SyncError::Persist => "the sync token could not be persisted",
        }
    }
}

/// Where the driver stands.
#[derive(Clone, Copy, Debug, PartialEq, Eq, Structural)]
pub enum SyncPhase {
    /// Catching up: a single round has been asked for.
    CatchUp,
    /// Catching up: the cursor of the successful round is being persisted.
    CatchUpPersisting,
    /// Listening: the continuous sync is running.
    SteadyState,
    /// Listening: the cursor of the latest round is being persisted.
    SteadyStatePersisting,
    /// The loop has ended with an error.
    Failed(SyncError),
}

/// The settings of a sync request.
#[derive(Clone, Debug, PartialEq, Eq)]
pub struct SyncRequest {
    /// The cursor from which the server is to continue, if one is known.
    pub since: Option<String>,
    /// Whether room members are loaded lazily; the driver always asks for
    /// that.
    pub lazy_load_members: bool,
}

/// The mathematical content of a [`SyncRequest`].
pub struct SyncRequestView {
    pub since: Option<Seq<char>>,
    pub lazy_load_members: bool,
}

impl View for SyncRequest {
    type V = SyncRequestView;

    open spec fn view(&self) -> SyncRequestView {
        SyncRequestView { since: text_of(self.since), lazy_load_members: self.lazy_load_members }
    }
}

/// The outcome of the outside work that the driver asked for.
#[derive(Clone, Debug, PartialEq, Eq)]
pub enum SyncEvent {
    /// A sync round succeeded and returned this cursor.
    RoundSucceeded(String),
    /// A sync round failed.
    RoundFailed,
    /// The cursor was persisted.
    Persisted,
    /// The cursor could not be persisted.
    PersistFailed,
}

/// The mathematical content of a [`SyncEvent`].
pub enum SyncEventView {
    RoundSucceeded(Seq<char>),
    RoundFailed,
    Persisted,
    PersistFailed,
}

impl View for SyncEvent {
    type V = SyncEventView;

    open spec fn view(&self) -> SyncEventView {
        match *self {
            SyncEvent::RoundSucceeded(cursor) => SyncEventView::RoundSucceeded(cursor@),
            SyncEvent::RoundFailed => SyncEventView::RoundFailed,
            SyncEvent::Persisted => SyncEventView::Persisted,
            SyncEvent::PersistFailed => SyncEventView::PersistFailed,
        }
    }
}

/// What the driver asks the outside world to do next.
#[derive(Clone, Debug, PartialEq, Eq)]
pub enum SyncAction {
    /// Run one sync round with these settings, without handing its
    /// messages to the message handler.
    RequestRound(SyncRequest),
    /// Persist this cursor.
    Persist(String),
    /// Attach the message handler and start the continuous sync with these
    /// settings.
    Listen(SyncRequest),
    /// Let the continuous sync go on.
    Continue,
    /// End the loop with this error.
    Stop(SyncError),
    /// Nothing: the event was not expected.
    Wait,
}

/// The mathematical content of a [`SyncAction`].
pub enum SyncActionView {
    RequestRound(SyncRequestView),
    Persist(Seq<char>),
    Listen(SyncRequestView),
    Continue,
    Stop(SyncError),
    Wait,
}

impl View for SyncAction {
    type V = SyncActionView;

    open spec fn view(&self) -> SyncActionView {
        match *self {
            SyncAction::RequestRound(request) => SyncActionView::RequestRound(request@),
            SyncAction::Persist(cursor) => SyncActionView::Persist(cursor@),
            SyncAction::Listen(request) => SyncActionView::Listen(request@),
            SyncAction::Continue => SyncActionView::Continue,
            SyncAction::Stop(error) => SyncActionView::Stop(error),
            SyncAction::Wait => SyncActionView::Wait,
        }
    }
}

/// The sync driver.
#[derive(Clone, Debug, PartialEq, Eq)]
pub struct SyncDriver {
    pub phase: SyncPhase,
    /// The cursor of the latest successful round; before the first one,
    /// the cursor that the session was restored with, if any.
    pub since: Option<String>,
}

/// The mathematical content of a [`SyncDriver`].
pub struct SyncDriverView {
    pub phase: SyncPhase,
    pub since: Option<Seq<char>>,
}

impl View for SyncDriver {
    type V = SyncDriverView;

    open spec fn view(&self) -> SyncDriverView {
        SyncDriverView { phase: self.phase, since: text_of(self.since) }
    }
}

/// The settings of a request that continues from the given cursor.
pub open spec fn request_from(since: Option<Seq<char>>) -> SyncRequestView {
    SyncRequestView { since, lazy_load_members: true }
}

/// The driver in another phase.
pub open spec fn in_phase(driver: SyncDriverView, phase: SyncPhase) -> SyncDriverView {
    SyncDriverView { phase, ..driver }
}

/// How the driver starts: catching up, with a first round seeded with the
/// stored cursor.
pub open spec fn start_spec(initial: Option<Seq<char>>) -> (SyncDriverView, SyncActionView) {
    (
        SyncDriverView { phase: SyncPhase::CatchUp, since: initial },
        SyncActionView::RequestRound(request_from(initial)),
    )
}

/// One step of the driver.
///
/// While catching up, a failed round is asked for again at once, with the
/// same settings and without limit, and the first round that succeeds has
/// its cursor persisted; once that is done the driver starts to listen.
/// While listening, every round that succeeds has its cursor persisted,
/// and a round that fails ends the loop. A cursor that cannot be persisted
/// ends the loop in either phase. Once the loop has ended every event is
/// answered with the error it ended with. An event that the phase does not
/// wait for changes nothing.
pub open spec fn step_spec(driver: SyncDriverView, event: SyncEventView) -> (
    SyncDriverView,
    SyncActionView,
) {
    match (driver.phase, event) {
        (SyncPhase::CatchUp, SyncEventView::RoundFailed) => (
            driver,
            SyncActionView::RequestRound(request_from(driver.since)),
        ),
        (SyncPhase::CatchUp, SyncEventView::RoundSucceeded(cursor)) => (
            SyncDriverView { phase: SyncPhase::CatchUpPersisting, since: Some(cursor) },
            SyncActionView::Persist(cursor),
        ),
        (SyncPhase::CatchUpPersisting, SyncEventView::Persisted) => (
            in_phase(driver, SyncPhase::SteadyState),
            SyncActionView::Listen(request_from(driver.since)),
        ),
        (SyncPhase::SteadyState, SyncEventView::RoundSucceeded(cursor)) => (
            SyncDriverView { phase: SyncPhase::SteadyStatePersisting, since: Some(cursor) },
            SyncActionView::Persist(cursor),
        ),
        (SyncPhase::SteadyState, SyncEventView::RoundFailed) => (
            in_phase(driver, SyncPhase::Failed(SyncError::Transport)),
            SyncActionView::Stop(SyncError::Transport),
        ),
        (SyncPhase::SteadyStatePersisting, SyncEventView::Persisted) => (
            in_phase(driver, SyncPhase::SteadyState),
            SyncActionView::Continue,
        ),
        (SyncPhase::CatchUpPersisting, SyncEventView::PersistFailed) => (
            in_phase(driver, SyncPhase::Failed(SyncError::Persist)),
            SyncActionView::Stop(SyncError::Persist),
        ),
        (SyncPhase::SteadyStatePersisting, SyncEventView::PersistFailed) => (
            in_phase(driver, SyncPhase::Failed(SyncError::Persist)),
            SyncActionView::Stop(SyncError::Persist),
        ),
        (SyncPhase::Failed(error), _) => (driver, SyncActionView::Stop(error)),
        _ => (driver, SyncActionView::Wait),
    }
}

impl SyncRequest {
    /// The settings of a request that continues from the given cursor.
    pub fn from_cursor(since: Option<String>) -> (request: SyncRequest)
        ensures
            request@ == request_from(text_of(since)),
    {
        SyncRequest { since, lazy_load_members: true }
    }
}

impl SyncDriver {
    /// Starts the driver with the cursor that the session was restored
    /// with, if any. The result is the driver and the first thing to do.
    pub fn start(initial: Option<String>) -> (started: (SyncDriver, SyncAction))
        ensures
            (started.0@, started.1@) == start_spec(text_of(initial)),
    {
        let request = SyncRequest::from_cursor(clone_text(&initial));
        (SyncDriver { phase: SyncPhase::CatchUp, since: initial }, SyncAction::RequestRound(request))
    }

    /// The driver in another phase.
    fn enter(self, phase: SyncPhase) -> (moved: SyncDriver)
        ensures
            moved@ == in_phase(self@, phase),
    {
        SyncDriver { phase, since: self.since }
    }

    /// Is the continuous sync running, so that messages are handed to the
    /// message handler?
    pub fn is_listening(&self) -> (listening: bool)
        ensures
            listening == (self.phase == SyncPhase::SteadyState || self.phase
                == SyncPhase::SteadyStatePersisting),
    {
        match self.phase {
            SyncPhase::SteadyState => true,
            SyncPhase::SteadyStatePersisting => true,
            _ => false,
        }
    }

    /// The error that the loop ended with, if it has ended.
    pub fn failure(&self) -> (error: Option<SyncError>)
        ensures
            error == (match self.phase {
                SyncPhase::Failed(e) => Some(e),
                _ => None,
            }),
    {
        match self.phase {
            SyncPhase::Failed(e) => Some(e),
            _ => None,
        }
    }

    /// One step: takes the outcome of what was asked for last and returns
    /// the driver and what is to be done next.
    pub fn step(self, event: SyncEvent) -> (next: (SyncDriver, SyncAction))
        ensures
            (next.0@, next.1@) == step_spec(self@, event@),
    {
        match self.phase {
            SyncPhase::CatchUp => match event {
                SyncEvent::RoundFailed => {
                    let request = SyncRequest::from_cursor(clone_text(&self.since));
                    (self, SyncAction::RequestRound(request))
                },
                SyncEvent::RoundSucceeded(cursor) => {
                    let since = Some(cursor.clone());
                    (
                        SyncDriver { phase: SyncPhase::CatchUpPersisting, since },
                        SyncAction::Persist(cursor),
                    )
                },
                _ => (self, SyncAction::Wait),
            },
            SyncPhase::CatchUpPersisting => match event {
                SyncEvent::Persisted => {
                    let request = SyncRequest::from_cursor(clone_text(&self.since));
                    (self.enter(SyncPhase::SteadyState), SyncAction::Listen(request))
                },
                SyncEvent::PersistFailed => (
                    self.enter(SyncPhase::Failed(SyncError::Persist)),
                    SyncAction::Stop(SyncError::Persist),
                ),
                _ => (self, SyncAction::Wait),
            },
            SyncPhase::SteadyState => match event {
                SyncEvent::RoundSucceeded(cursor) => {
                    let since = Some(cursor.clone());
                    (
                        SyncDriver { phase: SyncPhase::SteadyStatePersisting, since },
                        SyncAction::Persist(cursor),
                    )
                },
                SyncEvent::RoundFailed => (
                    self.enter(SyncPhase::Failed(SyncError::Transport)),
                    SyncAction::Stop(SyncError::Transport),
                ),
                _ => (self, SyncAction::Wait),
            },
            SyncPhase::SteadyStatePersisting => match event {
                SyncEvent::Persisted => (self.enter(SyncPhase::SteadyState), SyncAction::Continue),
                SyncEvent::PersistFailed => (
                    self.enter(SyncPhase::Failed(SyncError::Persist)),
                    SyncAction::Stop(SyncError::Persist),
                ),
                _ => (self, SyncAction::Wait),
            },
            SyncPhase::Failed(error) => (self, SyncAction::Stop(error)),
        }
    }
}

} // verus!
