//! What holds of every run, whatever events reach it and in whatever order.

use crate::credentials::{password_credentials, CredentialsView};
use crate::error::{message_spec, ErrorView, ReportView, EXIT_FAILURE, EXIT_SUCCESS};
use crate::pipeline::{begin_spec, next, playback_of, ActionView, EventView, RequestView, StageView};
use crate::track::is_track_reference;
use vstd::prelude::*;

verus! {

/// The stage that a run at `stage` has reached after `events`, in order.
pub open spec fn stage_after(stage: StageView, events: Seq<EventView>) -> StageView
    decreases events.len(),
{
    if events.len() == 0 {
        stage
    } else {
        next(stage_after(stage, events.drop_last()), events.last()).0
    }
}

/// The action that event `i` of `events` causes in a run that was at `stage`
/// before the first of them.
pub open spec fn action_at(stage: StageView, events: Seq<EventView>, i: int) -> ActionView {
    next(stage_after(stage, events.take(i)), events[i]).1
}

/// How far a run has come: one more for each stage passed.
pub open spec fn progress(stage: StageView) -> nat {
    match stage {
        StageView::OpeningCache { .. } => 0,
        StageView::Connecting { .. } => 1,
        StageView::Loading => 2,
        StageView::Playing => 3,
        StageView::Finished(_) => 4,
    }
}

/// A finished run stays finished, with the same outcome, and asks for nothing
/// more: after its exit no action follows.
pub proof fn law_finished_is_final(outcome: Result<(), ErrorView>, events: Seq<EventView>)
    ensures
        stage_after(StageView::Finished(outcome), events) == StageView::Finished(outcome),
        forall|i: int|
            0 <= i < events.len() ==> #[trigger] action_at(StageView::Finished(outcome), events, i)
                == ActionView::Idle,
    decreases events.len(),
{
    let start = StageView::Finished(outcome);
    if events.len() > 0 {
        law_finished_is_final(outcome, events.drop_last());
        assert forall|i: int| 0 <= i < events.len() implies #[trigger] action_at(start, events, i)
            == ActionView::Idle by {
            law_finished_is_final(outcome, events.take(i));
        }
    }
}

/// A reference outside the grammar ends the run where it begins: the failure
/// is the malformed identifier, the exit has the failure status and that
/// failure's line, and no later event makes the run open the cache, connect,
/// load or wait.
pub proof fn law_malformed_reference_stops_run(request: RequestView, events: Seq<EventView>)
    requires
        !is_track_reference(request.track_id),
    ensures
        begin_spec(request).0 matches StageView::Finished(Err(ErrorView::SpotifyIdError(_))),
        begin_spec(request).1 == ActionView::Exit(
            ReportView { status: EXIT_FAILURE, diagnostic: Some("Can't parse <track-id>"@) },
        ),
        forall|i: int|
            0 <= i < events.len() ==> #[trigger] action_at(begin_spec(request).0, events, i)
                == ActionView::Idle,
{
    match begin_spec(request).0 {
        StageView::Finished(outcome) => {
            law_finished_is_final(outcome, events);
        },
        _ => {},
    }
}

/// A well-formed reference leads to the credential cache and to nothing else.
pub proof fn law_well_formed_reference_opens_cache(request: RequestView)
    requires
        is_track_reference(request.track_id),
    ensures
        begin_spec(request).1 == ActionView::OpenCache,
        begin_spec(request).0 matches StageView::OpeningCache { username, password, .. }
            && username == request.username && password == request.password,
{
}

/// Once the cache is open the run connects, and with the credential that the
/// cache held if it held one, whatever username and password were supplied;
/// with the credential made of exactly the supplied pair if it held none.
pub proof fn law_run_connects_with_resolved_credential(
    track: nat,
    username: Seq<char>,
    password: Seq<char>,
    stored: CredentialsView,
)
    ensures
        next(
            StageView::OpeningCache { track, username, password },
            EventView::CacheOpened(Some(stored)),
        ) == (StageView::Connecting { track }, ActionView::Connect(stored)),
        next(StageView::OpeningCache { track, username, password }, EventView::CacheOpened(None))
            == (
            StageView::Connecting { track },
            ActionView::Connect(password_credentials(username, password)),
        ),
{
}

/// A session that cannot be established ends the run with the failure status
/// and the session layer's own line, as a session failure, which is never the
/// failure of a malformed identifier. The two lines differ as well, unless the
/// session layer's line itself is that of the malformed identifier.
pub proof fn law_session_failure_is_reported(track: nat, message: Seq<char>, malformed: ErrorView)
    requires
        malformed is SpotifyIdError,
    ensures
        next(StageView::Connecting { track }, EventView::ConnectFailed(message)) == (
            StageView::Finished(Err(ErrorView::SessionError(message))),
            ActionView::Exit(ReportView { status: EXIT_FAILURE, diagnostic: Some(message) }),
        ),
        EXIT_FAILURE != EXIT_SUCCESS,
        ErrorView::SessionError(message) != malformed,
        message != "Can't parse <track-id>"@ ==> message_spec(ErrorView::SessionError(message))
            != message_spec(malformed),
{
}

/// The success exit is asked for only when the end of the track is signalled
/// while the track is playing. No other event at no other stage ends a run
/// well.
pub proof fn law_success_only_at_end_of_track(stage: StageView, event: EventView)
    ensures
        (next(stage, event).1 matches ActionView::Exit(report) && report.status == EXIT_SUCCESS)
            <==> (stage == StageView::Playing && event == EventView::TrackEnded),
        next(stage, event).0 == StageView::Finished(Ok(())) && !(stage is Finished) ==> stage
            == StageView::Playing && event == EventView::TrackEnded,
{
}

/// Every move either changes nothing and asks for nothing, or takes the run
/// forward.
pub proof fn law_moves_go_forward(stage: StageView, event: EventView)
    ensures
        next(stage, event).1 == ActionView::Idle ==> next(stage, event).0 == stage,
        next(stage, event).1 != ActionView::Idle ==> progress(next(stage, event).0) > progress(
            stage,
        ),
{
}

/// A run never goes back.
pub proof fn law_progress_grows(stage: StageView, events: Seq<EventView>, i: int)
    requires
        0 <= i <= events.len(),
    ensures
        progress(stage_after(stage, events.take(i))) <= progress(stage_after(stage, events)),
    decreases events.len() - i,
{
    if i < events.len() {
        assert(events.take(i + 1).drop_last() =~= events.take(i));
        law_moves_go_forward(stage_after(stage, events.take(i)), events[i]);
        law_progress_grows(stage, events, i + 1);
    } else {
        assert(events.take(i) =~= events);
    }
}

/// The player is given its load only once the session stands, with the track
/// that the run carries, and in one run no second load is ever asked for.
pub proof fn law_one_load_per_run(stage: StageView, events: Seq<EventView>, i: int, j: int)
    requires
        0 <= i < j < events.len(),
        action_at(stage, events, i) is Load,
    ensures
        stage_after(stage, events.take(i)) matches StageView::Connecting { track }
            && events[i] == EventView::Connected && action_at(stage, events, i)
            == ActionView::Load(playback_of(track)),
        !(action_at(stage, events, j) is Load),
{
    let before = events.take(j);
    assert(before.take(i) =~= events.take(i));
    assert(before.take(i + 1) =~= events.take(i + 1));
    assert(before.take(i + 1).drop_last() =~= before.take(i));
    assert(before[i] == events[i]);
    law_progress_grows(stage, before, i + 1);
}

} // verus!
