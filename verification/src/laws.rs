//! What holds of every run of the state machine, whatever events arrive.

use vstd::prelude::*;
use crate::failure::Failure;
use crate::credentials::{CredentialRecord, StoreContent};
use crate::flow::{ActionView, Event, Phase, next};

verus! {

/// The kinds of action, without what they carry.
#[derive(Clone, Copy, Debug, PartialEq, Eq, Structural)]
pub enum ActionKind {
    Subscribe,
    CancelAndStore,
    ReadStore,
    Connect,
    Load,
    AwaitEndOfTrack,
    Exit,
    Ignore,
}

/// The kind of an action.
pub open spec fn kind_of(action: ActionView) -> ActionKind {
    match action {
        ActionView::Subscribe { .. } => ActionKind::Subscribe,
        ActionView::CancelAndStore { .. } => ActionKind::CancelAndStore,
        ActionView::ReadStore { .. } => ActionKind::ReadStore,
        ActionView::Connect { .. } => ActionKind::Connect,
        ActionView::Load { .. } => ActionKind::Load,
        ActionView::AwaitEndOfTrack => ActionKind::AwaitEndOfTrack,
        ActionView::Exit { .. } => ActionKind::Exit,
        ActionView::Ignore => ActionKind::Ignore,
    }
}

/// Whether a phase is final: the run has ended, in success or in failure.
pub open spec fn is_final(phase: Phase) -> bool {
    phase is Ended || phase is Failed
}

/// How far a run has come.
pub open spec fn progress(phase: Phase) -> nat {
    match phase {
        Phase::Idle => 0,
        Phase::Listening => 1,
        Phase::Reading { .. } => 1,
        Phase::Persisting => 2,
        Phase::Connecting { .. } => 2,
        Phase::Loaded => 3,
        Phase::Playing => 4,
        Phase::Ended => 5,
        Phase::Failed(_) => 5,
    }
}

/// How far a run has come once an action of this kind was asked for.
pub open spec fn progress_after(kind: ActionKind) -> nat {
    match kind {
        ActionKind::Subscribe => 1,
        ActionKind::ReadStore => 1,
        ActionKind::CancelAndStore => 2,
        ActionKind::Connect => 2,
        ActionKind::Load => 3,
        ActionKind::AwaitEndOfTrack => 4,
        ActionKind::Exit => 5,
        ActionKind::Ignore => 0,
    }
}

/// The phase reached from `phase` after the events, in order.
pub open spec fn phase_after(phase: Phase, events: Seq<Event>) -> Phase
    decreases events.len(),
{
    if events.len() == 0 {
        phase
    } else {
        phase_after(next(phase, events[0]).0, events.drop_first())
    }
}

/// How many actions of one kind are asked for while the events, in order,
/// are taken from `phase`.
pub open spec fn times_asked(phase: Phase, events: Seq<Event>, kind: ActionKind) -> nat
    decreases events.len(),
{
    if events.len() == 0 {
        0
    } else {
        let (following, action) = next(phase, events[0]);
        let now: nat = if kind_of(action) == kind {
            1
        } else {
            0
        };
        now + times_asked(following, events.drop_first(), kind)
    }
}

/// An event is either ignored, leaving the phase as it was, or consumed,
/// and then the run moves strictly forward to where the action's kind says.
pub proof fn lemma_step_moves_forward(phase: Phase, event: Event)
    ensures
        next(phase, event).1 is Ignore ==> next(phase, event).0 == phase,
        !(next(phase, event).1 is Ignore) ==> progress(phase) < progress(next(phase, event).0)
            && progress(next(phase, event).0) == progress_after(kind_of(next(phase, event).1)),
{
}

/// Once a run has ended, every further event is ignored.
pub proof fn lemma_final_phase_absorbs(phase: Phase, event: Event)
    requires
        is_final(phase),
    ensures
        next(phase, event) == (phase, ActionView::Ignore),
{
}

/// A run leaves exactly when it reaches a final phase, and its status is
/// zero exactly when it ended without a failure.
pub proof fn lemma_exit_reports_outcome(phase: Phase, event: Event)
    ensures
        next(phase, event).1 is Exit <==> !is_final(phase) && is_final(next(phase, event).0),
        match next(phase, event).1 {
            ActionView::Exit { status, failure } => {
                &&& status == 0 <==> failure is None
                &&& match failure {
                    Some(f) => next(phase, event).0 == Phase::Failed(f),
                    None => next(phase, event).0 == Phase::Ended,
                }
            },
            _ => true,
        },
{
}

/// From a phase that has come at least as far as an action's kind leads,
/// that action is never asked for; from an earlier phase, at most once.
pub proof fn lemma_asked_at_most_once(phase: Phase, events: Seq<Event>, kind: ActionKind)
    requires
        kind != ActionKind::Ignore,
    ensures
        times_asked(phase, events, kind) <= 1,
        progress(phase) >= progress_after(kind) ==> times_asked(phase, events, kind) == 0,
    decreases events.len(),
{
    if events.len() > 0 {
        lemma_step_moves_forward(phase, events[0]);
        lemma_asked_at_most_once(next(phase, events[0]).0, events.drop_first(), kind);
    }
}

/// In every run, whatever the events: the listener is subscribed to at most
/// once, at most one device's credentials are persisted, the store is read
/// at most once, a session is opened at most once, at most one item is
/// loaded, and the run leaves at most once.
pub proof fn lemma_run_acts_once(events: Seq<Event>, kind: ActionKind)
    requires
        kind != ActionKind::Ignore,
    ensures
        times_asked(Phase::Idle, events, kind) <= 1,
{
    lemma_asked_at_most_once(Phase::Idle, events, kind);
}

/// After a run has ended, nothing more is asked of the outside world.
pub proof fn lemma_nothing_after_the_end(phase: Phase, events: Seq<Event>, kind: ActionKind)
    requires
        is_final(phase),
        kind != ActionKind::Ignore,
    ensures
        times_asked(phase, events, kind) == 0,
        phase_after(phase, events) == phase,
    decreases events.len(),
{
    if events.len() > 0 {
        lemma_final_phase_absorbs(phase, events[0]);
        lemma_nothing_after_the_end(phase, events.drop_first(), kind);
    }
}

/// A run asks to leave exactly when it is over: from a phase that is not
/// final, the events lead to a final phase if and only if leaving was asked
/// for, once.
pub proof fn lemma_leaves_exactly_when_over(phase: Phase, events: Seq<Event>)
    requires
        !is_final(phase),
    ensures
        is_final(phase_after(phase, events)) <==> times_asked(phase, events, ActionKind::Exit)
            == 1,
    decreases events.len(),
{
    if events.len() > 0 {
        let following = next(phase, events[0]).0;
        lemma_exit_reports_outcome(phase, events[0]);
        if is_final(following) {
            lemma_nothing_after_the_end(following, events.drop_first(), ActionKind::Exit);
        } else {
            lemma_leaves_exactly_when_over(following, events.drop_first());
        }
    }
}

/// An invocation that is not `discover` alone or `play` with exactly one
/// media identifier is a usage error, and the run then asks for nothing
/// but to leave: no store is read and no network is touched.
pub proof fn lemma_bad_invocation_is_usage_error(
    subcommand: Option<String>,
    operands: Vec<String>,
    later: Seq<Event>,
    kind: ActionKind,
)
    requires
        kind != ActionKind::Ignore,
        match subcommand {
            Some(name) => !(name@ == "discover"@ && operands@.len() == 0) && !(name@ == "play"@
                && operands@.len() == 1),
            None => true,
        },
    ensures
        next(Phase::Idle, Event::Invoked { subcommand, operands }) == (
            Phase::Failed(Failure::Usage),
            ActionView::Exit { status: 2, failure: Some(Failure::Usage) },
        ),
        times_asked(Phase::Failed(Failure::Usage), later, kind) == 0,
{
    lemma_nothing_after_the_end(Phase::Failed(Failure::Usage), later, kind);
}

/// A `play` that finds nothing persisted fails as not found, and no session
/// is ever opened in that run.
pub proof fn lemma_play_without_credentials(media: String, later: Seq<Event>)
    ensures
        next(Phase::Reading { media }, Event::StoreRead(StoreContent::Missing)) == (
            Phase::Failed(Failure::NotFound),
            ActionView::Exit { status: 1, failure: Some(Failure::NotFound) },
        ),
        times_asked(Phase::Failed(Failure::NotFound), later, ActionKind::Connect) == 0,
{
    lemma_nothing_after_the_end(Phase::Failed(Failure::NotFound), later, ActionKind::Connect);
}

/// Discovery takes the first device and no other: the first device found
/// is persisted, and a device that arrives in any other phase is ignored.
pub proof fn lemma_only_first_device_is_taken(
    phase: Phase,
    record: CredentialRecord,
    later: Seq<Event>,
)
    ensures
        next(Phase::Listening, Event::DeviceFound(record)).0 == Phase::Persisting,
        next(Phase::Listening, Event::DeviceFound(record)).1 is CancelAndStore,
        !(phase is Listening) ==> next(phase, Event::DeviceFound(record)) == (
            phase,
            ActionView::Ignore,
        ),
        times_asked(Phase::Persisting, later, ActionKind::CancelAndStore) == 0,
{
    lemma_asked_at_most_once(Phase::Persisting, later, ActionKind::CancelAndStore);
}

/// A handshake that the remote rejects ends the run as an authentication
/// failure, with a status other than zero; in what follows nothing is
/// loaded, no end of track is awaited, and no second handshake is tried.
pub proof fn lemma_rejected_handshake_is_final(media: String, later: Seq<Event>)
    ensures
        next(Phase::Connecting { media }, Event::Rejected) == (
            Phase::Failed(Failure::AuthenticationFailed),
            ActionView::Exit { status: 1, failure: Some(Failure::AuthenticationFailed) },
        ),
        times_asked(Phase::Failed(Failure::AuthenticationFailed), later, ActionKind::Load) == 0,
        times_asked(
            Phase::Failed(Failure::AuthenticationFailed),
            later,
            ActionKind::AwaitEndOfTrack,
        ) == 0,
        times_asked(Phase::Failed(Failure::AuthenticationFailed), later, ActionKind::Connect)
            == 0,
{
    let failed = Phase::Failed(Failure::AuthenticationFailed);
    lemma_nothing_after_the_end(failed, later, ActionKind::Load);
    lemma_nothing_after_the_end(failed, later, ActionKind::AwaitEndOfTrack);
    lemma_nothing_after_the_end(failed, later, ActionKind::Connect);
}

/// A session counts as open only on the remote's acknowledgement: while
/// the handshake is under way, every other event is either ignored or ends
/// the run in failure.
pub proof fn lemma_session_needs_acknowledgement(media: String, event: Event)
    ensures
        next(Phase::Connecting { media }, event).0 is Loaded ==> event is Connected,
        !(event is Connected) ==> next(Phase::Connecting { media }, event).0 is Failed || next(
            Phase::Connecting { media },
            event,
        ) == (Phase::Connecting { media }, ActionView::Ignore),
{
}

/// A run ends in success only when the track has played to its end, or
/// when the discovered record has been stored.
pub proof fn lemma_success_needs_completion(phase: Phase, event: Event)
    requires
        !(phase is Ended),
        next(phase, event).0 is Ended,
    ensures
        (phase is Playing && event is EndOfTrack) || (phase is Persisting && event is Stored),
{
}

/// An item is always loaded from its beginning and starts playing at once.
pub proof fn lemma_load_starts_at_zero(phase: Phase, event: Event)
    ensures
        match next(phase, event).1 {
            ActionView::Load { start_playing, position, .. } => start_playing && position == 0,
            _ => true,
        },
{
}

} // verus!
