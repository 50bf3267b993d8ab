//! The course of a run: parse the reference, open the credential cache,
//! connect, load the track, wait for its end, exit.
//!
//! The run is a state machine. [`begin`] takes what the user supplied and says
//! what to do first; [`step`] takes what the last operation gave and says what
//! to do next. The caller performs each [`Action`] and reports its result as an
//! [`Event`]. The stages are strictly sequential and nothing is retried: the
//! first failure ends the run.

use crate::credentials::{lookup_view, resolve, resolve_spec, Credentials, CredentialsView};
use crate::error::{
    outcome_view, report, report_spec, CacheError, Error, ErrorView, Report, ReportView,
    SessionError,
};
use crate::track::{parse_spec, TrackIdentifier};
use vstd::prelude::*;

verus! {

/// What the user supplied for a run.
#[derive(Debug, PartialEq, Eq)]
pub struct Request {
    pub username: String,
    pub password: String,
    pub track_id: String,
}

/// A request as plain values.
pub struct RequestView {
    pub username: Seq<char>,
    pub password: Seq<char>,
    pub track_id: Seq<char>,
}

impl View for Request {
    type V = RequestView;

    open spec fn view(&self) -> RequestView {
        RequestView { username: self.username@, password: self.password@, track_id: self.track_id@ }
    }
}

/// The one load that a player is given: which track, and how to start it. The
/// sink takes the audio as the service sent it, without decoding.
#[derive(Debug, PartialEq, Eq)]
pub struct Playback {
    pub track: TrackIdentifier,
    pub start_immediately: bool,
    pub start_position_ms: u32,
    pub passthrough: bool,
}

/// A load as plain values.
pub struct PlaybackView {
    pub track: nat,
    pub start_immediately: bool,
    pub start_position_ms: u32,
    pub passthrough: bool,
}

impl View for Playback {
    type V = PlaybackView;

    open spec fn view(&self) -> PlaybackView {
        PlaybackView {
            track: self.track@,
            start_immediately: self.start_immediately,
            start_position_ms: self.start_position_ms,
            passthrough: self.passthrough,
        }
    }
}

/// The load of a run: the track from its very start, playing at once, in
/// passthrough.
pub open spec fn playback_of(track: nat) -> PlaybackView {
    PlaybackView { track, start_immediately: true, start_position_ms: 0, passthrough: true }
}

/// Where a run stands.
#[derive(Debug, PartialEq, Eq)]
pub enum Stage {
    /// The reference is parsed; the credential cache is being opened and read.
    OpeningCache { track: TrackIdentifier, username: String, password: String },
    /// The credential is chosen; the session is being established.
    Connecting { track: TrackIdentifier },
    /// The session stands; the player is being given its track.
    Loading,
    /// The track is loaded; its end is awaited.
    Playing,
    /// The run is over.
    Finished(Result<(), Error>),
}

/// A stage as plain values.
pub enum StageView {
    OpeningCache { track: nat, username: Seq<char>, password: Seq<char> },
    Connecting { track: nat },
    Loading,
    Playing,
    Finished(Result<(), ErrorView>),
}

impl View for Stage {
    type V = StageView;

    open spec fn view(&self) -> StageView {
        match *self {
            Stage::OpeningCache { track, username, password } => StageView::OpeningCache {
                track: track@,
                username: username@,
                password: password@,
            },
            Stage::Connecting { track } => StageView::Connecting { track: track@ },
            Stage::Loading => StageView::Loading,
            Stage::Playing => StageView::Playing,
            Stage::Finished(outcome) => StageView::Finished(outcome_view(outcome)),
        }
    }
}

/// What an operation performed for the run gave.
#[derive(Debug, PartialEq, Eq)]
pub enum Event {
    /// The cache is open. It held this credential, or none that could be read.
    CacheOpened(Option<Credentials>),
    /// The cache could not be opened; the system's words for it.
    CacheFailed(String),
    /// The session is established.
    Connected,
    /// The session could not be established; the session layer's words for it.
    ConnectFailed(String),
    /// The player has taken the load.
    Loaded,
    /// The player has signalled the end of the track.
    TrackEnded,
}

/// An event as plain values.
pub enum EventView {
    CacheOpened(Option<CredentialsView>),
    CacheFailed(Seq<char>),
    Connected,
    ConnectFailed(Seq<char>),
    Loaded,
    TrackEnded,
}

impl View for Event {
    type V = EventView;

    open spec fn view(&self) -> EventView {
        match *self {
            Event::CacheOpened(cached) => EventView::CacheOpened(lookup_view(cached)),
            Event::CacheFailed(message) => EventView::CacheFailed(message@),
            Event::Connected => EventView::Connected,
            Event::ConnectFailed(message) => EventView::ConnectFailed(message@),
            Event::Loaded => EventView::Loaded,
            Event::TrackEnded => EventView::TrackEnded,
        }
    }
}

/// What the caller is to do next.
#[derive(Debug, PartialEq, Eq)]
pub enum Action {
    /// Open the credential cache, creating it if absent, and read it.
    OpenCache,
    /// Establish a session with this credential.
    Connect(Credentials),
    /// Build the player on the session and give it this load.
    Load(Playback),
    /// Wait until the player signals the end of the track.
    AwaitEndOfTrack,
    /// Print the diagnostic, if any, and leave with the status.
    Exit(Report),
    /// Nothing: the event was not one that the stage waits for.
    Idle,
}

/// An action as plain values.
pub enum ActionView {
    OpenCache,
    Connect(CredentialsView),
    Load(PlaybackView),
    AwaitEndOfTrack,
    Exit(ReportView),
    Idle,
}

impl View for Action {
    type V = ActionView;

    open spec fn view(&self) -> ActionView {
        match *self {
            Action::OpenCache => ActionView::OpenCache,
            Action::Connect(credentials) => ActionView::Connect(credentials@),
            Action::Load(playback) => ActionView::Load(playback@),
            Action::AwaitEndOfTrack => ActionView::AwaitEndOfTrack,
            Action::Exit(report) => ActionView::Exit(report@),
            Action::Idle => ActionView::Idle,
        }
    }
}

/// The end of a run with `outcome`: the final stage and the exit it asks for.
pub open spec fn finish_spec(outcome: Result<(), ErrorView>) -> (StageView, ActionView) {
    (StageView::Finished(outcome), ActionView::Exit(report_spec(outcome)))
}

/// The first move of a run. A malformed reference ends it before anything
/// else is touched; a well-formed one leads to the credential cache.
pub open spec fn begin_spec(request: RequestView) -> (StageView, ActionView) {
    match parse_spec(request.track_id) {
        Ok(track) => (
            StageView::OpeningCache {
                track,
                username: request.username,
                password: request.password,
            },
            ActionView::OpenCache,
        ),
        Err(e) => finish_spec(Err(ErrorView::SpotifyIdError(e))),
    }
}

/// The move that `event` causes at `stage`. An event that the stage does not
/// wait for changes nothing.
pub open spec fn next(stage: StageView, event: EventView) -> (StageView, ActionView) {
    match (stage, event) {
        (StageView::OpeningCache { track, username, password }, EventView::CacheOpened(cached)) => (
            StageView::Connecting { track },
            ActionView::Connect(resolve_spec(cached, username, password)),
        ),
        (StageView::OpeningCache { .. }, EventView::CacheFailed(message)) => finish_spec(
            Err(ErrorView::CacheError(message)),
        ),
        (StageView::Connecting { track }, EventView::Connected) => (
            StageView::Loading,
            ActionView::Load(playback_of(track)),
        ),
        (StageView::Connecting { .. }, EventView::ConnectFailed(message)) => finish_spec(
            Err(ErrorView::SessionError(message)),
        ),
        (StageView::Loading, EventView::Loaded) => (StageView::Playing, ActionView::AwaitEndOfTrack),
        (StageView::Playing, EventView::TrackEnded) => finish_spec(Ok(())),
        _ => (stage, ActionView::Idle),
    }
}

/// Ends the run with `outcome`.
fn finish(outcome: Result<(), Error>) -> (r: (Stage, Action))
    ensures
        (r.0@, r.1@) == finish_spec(outcome_view(outcome)),
{
    let exit = report(&outcome);
    (Stage::Finished(outcome), Action::Exit(exit))
}

/// Starts a run.
///
/// The track reference is parsed first. If it is malformed the run is over at
/// once, with the exit for that failure. Otherwise the run waits for the
/// credential cache.
pub fn begin(request: Request) -> (r: (Stage, Action))
    ensures
        (r.0@, r.1@) == begin_spec(request@),
{
    match TrackIdentifier::parse(request.track_id.as_str()) {
        Ok(track) => (
            Stage::OpeningCache { track, username: request.username, password: request.password },
            Action::OpenCache,
        ),
        Err(e) => finish(Err(Error::from(e))),
    }
}

/// Takes the run one move further.
///
/// Returns the stage that follows `stage` on `event`, and what to do there.
pub fn step(stage: Stage, event: Event) -> (r: (Stage, Action))
    ensures
        (r.0@, r.1@) == next(stage@, event@),
{
    match stage {
        Stage::OpeningCache { track, username, password } => match event {
            Event::CacheOpened(cached) => {
                let credentials = resolve(cached, username, password);
                (Stage::Connecting { track }, Action::Connect(credentials))
            },
            Event::CacheFailed(message) => finish(Err(Error::from(CacheError { message }))),
            _ => (Stage::OpeningCache { track, username, password }, Action::Idle),
        },
        Stage::Connecting { track } => match event {
            Event::Connected => {
                let playback = Playback {
                    track,
                    start_immediately: true,
                    start_position_ms: 0,
                    passthrough: true,
                };
                (Stage::Loading, Action::Load(playback))
            },
            Event::ConnectFailed(message) => finish(Err(Error::from(SessionError { message }))),
            _ => (Stage::Connecting { track }, Action::Idle),
        },
        Stage::Loading => match event {
            Event::Loaded => (Stage::Playing, Action::AwaitEndOfTrack),
            _ => (Stage::Loading, Action::Idle),
        },
        Stage::Playing => match event {
            Event::TrackEnded => finish(Ok(())),
            _ => (Stage::Playing, Action::Idle),
        },
        Stage::Finished(outcome) => (Stage::Finished(outcome), Action::Idle),
    }
}

} // verus!
