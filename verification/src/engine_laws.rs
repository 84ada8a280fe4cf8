//! What holds of every run of the engine update pipeline.
//!
//! A run is the first action of [`start`] and the actions that [`next`]
//! names in answer to a sequence of reports; a report that is not the
//! awaited answer is passed over. The laws below are stated over such runs.

use vstd::prelude::*;

use crate::config::{binary_name, binary_rank, EngineBinary, Platform};
use crate::engine::{
    final_result, in_use_message, logic_error, next, no_url_message, nothing_found_message,
    partial_message, start, success_message, ActionView, Phase, PipelineView, UpdateEvent,
};
use crate::error::{ErrorKind, ErrorView};
use crate::http::is_success;

verus! {

/// The state of a run that stood at `s` and then took `events`, in order.
pub open spec fn state_after(s: PipelineView, events: Seq<UpdateEvent>) -> PipelineView
    decreases events.len(),
{
    if events.len() == 0 {
        s
    } else {
        let before = state_after(s, events.drop_last());
        match next(before, events.last()) {
            Some((after, _)) => after,
            None => before,
        }
    }
}

/// The actions named in answer to `events` by a run that stood at `s`.
pub open spec fn actions_after(s: PipelineView, events: Seq<UpdateEvent>) -> Seq<ActionView>
    decreases events.len(),
{
    if events.len() == 0 {
        Seq::empty()
    } else {
        let before = state_after(s, events.drop_last());
        let earlier = actions_after(s, events.drop_last());
        match next(before, events.last()) {
            Some((_, action)) => earlier.push(action),
            None => earlier,
        }
    }
}

/// Every action of the run for `url` that is handed `events`: the first
/// action and those named in answer to the reports.
pub open spec fn run_actions(url: Seq<char>, platform: Platform, events: Seq<UpdateEvent>) -> Seq<
    ActionView,
> {
    seq![start(url, platform).1] + actions_after(start(url, platform).0, events)
}

/// The state of the run for `url` after `events`.
pub open spec fn run_state(url: Seq<char>, platform: Platform, events: Seq<UpdateEvent>)
    -> PipelineView {
    state_after(start(url, platform).0, events)
}

/// The action creates, fills, reads or removes the scratch directory, or
/// goes to the network, or writes into the binaries directory.
pub open spec fn touches_scratch_or_network(action: ActionView) -> bool {
    match action {
        ActionView::PrepareScratch => true,
        ActionView::Request { .. } => true,
        ActionView::SaveBody => true,
        ActionView::Extract => true,
        ActionView::Locate(_) => true,
        ActionView::Install { .. } => true,
        ActionView::RemoveScratch => true,
        _ => false,
    }
}

/// The place of a phase in the order in which a run passes through them.
pub open spec fn phase_rank(phase: Phase) -> nat {
    match phase {
        Phase::Resolving => 0,
        Phase::EnsuringDirectory => 1,
        Phase::Probing(b) => 2 + binary_rank(b),
        Phase::PreparingScratch => 5,
        Phase::Requesting => 6,
        Phase::SavingBody => 7,
        Phase::Extracting => 8,
        Phase::Locating(b) => 9 + 2 * binary_rank(b),
        Phase::Installing(b) => 10 + 2 * binary_rank(b),
        Phase::Cleaning => 15,
        Phase::Finished => 16,
    }
}

/// The place of the phase that waits for the answer to `action`.
pub open spec fn action_rank(action: ActionView) -> nat {
    match action {
        ActionView::ResolveDirectory => 0,
        ActionView::EnsureDirectory => 1,
        ActionView::ProbeLock(b) => 2 + binary_rank(b),
        ActionView::PrepareScratch => 5,
        ActionView::Request { .. } => 6,
        ActionView::SaveBody => 7,
        ActionView::Extract => 8,
        ActionView::Locate(b) => 9 + 2 * binary_rank(b),
        ActionView::Install { binary, .. } => 10 + 2 * binary_rank(binary),
        ActionView::RemoveScratch => 15,
        ActionView::Finish(_) => 16,
    }
}

/// One accepted report moves the run strictly forward, to the phase that
/// waits for the answer to the action named; the address, the platform and,
/// once it is resolved, the binaries directory stay what they were; and a
/// run finishes either before it made a scratch directory or right after it
/// asked for its removal.
pub proof fn law_step_moves_forward(s: PipelineView, event: UpdateEvent)
    requires
        next(s, event) is Some,
    ensures
        match next(s, event) {
            Some((after, action)) => {
                &&& phase_rank(s.phase) < phase_rank(after.phase)
                &&& action_rank(action) == phase_rank(after.phase)
                &&& after.url == s.url
                &&& after.platform == s.platform
                &&& s.phase != Phase::Resolving ==> after.directory == s.directory
                &&& action is Finish ==> phase_rank(s.phase) < 5 || s.phase == Phase::Cleaning
                &&& s.wf() ==> after.wf()
            },
            None => true,
        },
{
}

/// A run that is over names no further action, whatever it is handed.
pub proof fn law_finished_run_is_silent(s: PipelineView, events: Seq<UpdateEvent>)
    requires
        s.phase == Phase::Finished,
    ensures
        state_after(s, events) == s,
        actions_after(s, events) == Seq::<ActionView>::empty(),
    decreases events.len(),
{
    if events.len() > 0 {
        law_finished_run_is_silent(s, events.drop_last());
    }
}

/// Taking `first` and then `rest` is taking `first + rest`.
pub proof fn lemma_events_split(s: PipelineView, first: Seq<UpdateEvent>, rest: Seq<UpdateEvent>)
    ensures
        state_after(s, first + rest) == state_after(state_after(s, first), rest),
        actions_after(s, first + rest) == actions_after(s, first) + actions_after(
            state_after(s, first),
            rest,
        ),
    decreases rest.len(),
{
    if rest.len() == 0 {
        assert(actions_after(s, first) + Seq::<ActionView>::empty() =~= actions_after(s, first));
    } else {
        lemma_events_split(s, first, rest.drop_last());
        assert((first + rest).drop_last() =~= first + rest.drop_last());
        let middle = state_after(s, first);
        let before = state_after(middle, rest.drop_last());
        match next(before, rest.last()) {
            Some((_, action)) => {
                assert(actions_after(s, first + rest) =~= actions_after(s, first) + actions_after(
                    middle,
                    rest,
                ));
            },
            None => {},
        }
    }
}

/// The actions of a run ascend: each belongs to a later phase than the one
/// before it, and the last one is the one whose answer the run waits for.
pub proof fn lemma_actions_ascend(s: PipelineView, last: ActionView, events: Seq<UpdateEvent>)
    requires
        action_rank(last) == phase_rank(s.phase),
    ensures
        ({
            let acts = seq![last] + actions_after(s, events);
            &&& action_rank(acts.last()) == phase_rank(state_after(s, events).phase)
            &&& forall|i: int, j: int|
                0 <= i < j < acts.len() ==> action_rank(#[trigger] acts[i]) < action_rank(
                    #[trigger] acts[j],
                )
            &&& forall|j: int|
                1 <= j < acts.len() && (#[trigger] acts[j]) is Finish ==> action_rank(acts[j - 1])
                    < 5 || acts[j - 1] is RemoveScratch
        }),
    decreases events.len(),
{
    let acts = seq![last] + actions_after(s, events);
    if events.len() == 0 {
        assert(acts =~= seq![last]);
    } else {
        lemma_actions_ascend(s, last, events.drop_last());
        let before = state_after(s, events.drop_last());
        let earlier = seq![last] + actions_after(s, events.drop_last());
        match next(before, events.last()) {
            Some((after, action)) => {
                law_step_moves_forward(before, events.last());
                assert forall|i: int, j: int| 0 <= i < j < acts.len() implies action_rank(
                    #[trigger] acts[i],
                ) < action_rank(#[trigger] acts[j]) by {
                    if j < earlier.len() {
                        assert(acts[i] == earlier[i] && acts[j] == earlier[j]);
                    } else {
                        if i < earlier.len() - 1 {
                            assert(action_rank(earlier[i]) < action_rank(
                                earlier[earlier.len() - 1],
                            ));
                        }
                    }
                }
                assert forall|j: int| 1 <= j < acts.len() && (#[trigger] acts[j]) is Finish implies (
                action_rank(acts[j - 1]) < 5 || acts[j - 1] is RemoveScratch) by {
                    if j < earlier.len() {
                        assert(acts[j] == earlier[j] && acts[j - 1] == earlier[j - 1]);
                    } else {
                        assert(acts[j - 1] == earlier.last());
                    }
                }
            },
            None => {
                assert(acts =~= earlier);
            },
        }
    }
}

/// A run for an empty address consists of one action: the refusal. Nothing
/// is asked of the caller before it or after it.
pub proof fn law_empty_url_is_refused_at_once(platform: Platform, events: Seq<UpdateEvent>)
    ensures
        run_actions(Seq::empty(), platform, events) == seq![
            ActionView::Finish(Err(logic_error(no_url_message()))),
        ],
{
    law_finished_run_is_silent(start(Seq::empty(), platform).0, events);
}

/// Where a probe finds a binary locked, the run ends with the message that
/// names that binary, and none of its actions, from the first to the last,
/// makes a scratch directory, goes to the network or writes a binary.
pub proof fn law_locked_binary_stops_the_run(
    url: Seq<char>,
    platform: Platform,
    events: Seq<UpdateEvent>,
    k: int,
    binary: EngineBinary,
)
    requires
        0 <= k < events.len(),
        run_state(url, platform, events.take(k)).phase == Phase::Probing(binary),
        events[k] == UpdateEvent::LockProbed(true),
    ensures
        run_actions(url, platform, events).last() == ActionView::Finish(
            Err(logic_error(in_use_message(binary_name(platform, binary)))),
        ),
        forall|j: int|
            0 <= j < run_actions(url, platform, events).len() ==> !touches_scratch_or_network(
                #[trigger] run_actions(url, platform, events)[j],
            ),
{
    let s0 = start(url, platform).0;
    let first = start(url, platform).1;
    let head = events.take(k);
    let probe = seq![events[k]];
    let tail = events.skip(k + 1);
    assert(events =~= (head + probe) + tail);
    let at_probe = state_after(s0, head);
    lemma_step_keeps_platform(s0, head);
    // the probe itself
    let refusal = ActionView::Finish(
        Err(logic_error(in_use_message(binary_name(platform, binary)))),
    );
    assert(next(at_probe, events[k]) == Some(
        (PipelineView { phase: Phase::Finished, ..at_probe }, refusal),
    ));
    assert(actions_after(at_probe, probe.drop_last()) =~= Seq::<ActionView>::empty());
    assert(actions_after(at_probe, probe) =~= seq![refusal]);
    let done = state_after(at_probe, probe);
    lemma_events_split(s0, head, probe);
    lemma_events_split(s0, head + probe, tail);
    law_finished_run_is_silent(done, tail);
    let acts = run_actions(url, platform, events);
    // everything before the probe belongs to a phase no later than the probe
    lemma_actions_ascend(s0, first, head);
    let early = seq![first] + actions_after(s0, head);
    assert forall|j: int| 0 <= j < acts.len() implies !touches_scratch_or_network(
        #[trigger] acts[j],
    ) by {
        if j < early.len() - 1 {
            assert(action_rank(early[j]) < action_rank(early[early.len() - 1]));
        }
    }
}

/// The platform of a run never changes.
pub proof fn lemma_step_keeps_platform(s: PipelineView, events: Seq<UpdateEvent>)
    ensures
        state_after(s, events).platform == s.platform,
        state_after(s, events).url == s.url,
    decreases events.len(),
{
    if events.len() > 0 {
        lemma_step_keeps_platform(s, events.drop_last());
    }
}

/// Once a run has asked for a scratch directory, it does not finish before
/// it has asked for its removal: the action just before the last one is the
/// removal, on every path, success or failure.
pub proof fn law_scratch_is_removed_before_the_end(
    url: Seq<char>,
    platform: Platform,
    events: Seq<UpdateEvent>,
    i: int,
    j: int,
)
    requires
        0 <= i < j < run_actions(url, platform, events).len(),
        run_actions(url, platform, events)[i] is PrepareScratch,
        run_actions(url, platform, events)[j] is Finish,
    ensures
        run_actions(url, platform, events)[j - 1] is RemoveScratch,
{
    let s0 = start(url, platform).0;
    let first = start(url, platform).1;
    lemma_actions_ascend(s0, first, events);
    let acts = run_actions(url, platform, events);
    if i < j - 1 {
        assert(action_rank(acts[i]) < action_rank(acts[j - 1]));
    }
}

/// The binaries directory that a run resolved is the one it keeps: no
/// later report changes it.
pub proof fn law_directory_is_kept(s: PipelineView, events: Seq<UpdateEvent>)
    requires
        s.phase != Phase::Resolving,
    ensures
        state_after(s, events).directory == s.directory,
        state_after(s, events).phase != Phase::Resolving,
    decreases events.len(),
{
    if events.len() > 0 {
        law_directory_is_kept(s, events.drop_last());
        let before = state_after(s, events.drop_last());
        if next(before, events.last()) is Some {
            law_step_moves_forward(before, events.last());
        }
    }
}

/// A run that fails after it made its scratch directory, at the request,
/// at the storing of the package or at its extraction, asks for no binary
/// to be copied, before the failure or after it: the binaries directory
/// stays as it was.
pub proof fn law_failed_download_installs_nothing(
    url: Seq<char>,
    platform: Platform,
    events: Seq<UpdateEvent>,
)
    requires
        run_state(url, platform, events).verdict is Some,
    ensures
        phase_rank(run_state(url, platform, events).phase) >= 15,
        forall|j: int|
            0 <= j < run_actions(url, platform, events).len() ==> !(#[trigger] run_actions(
                url,
                platform,
                events,
            )[j] is Install),
    decreases events.len(),
{
    let s0 = start(url, platform).0;
    let first = start(url, platform).1;
    let acts = run_actions(url, platform, events);
    if events.len() > 0 {
        let before = state_after(s0, events.drop_last());
        let earlier = run_actions(url, platform, events.drop_last());
        match next(before, events.last()) {
            Some((after, action)) => {
                assert(acts =~= earlier.push(action));
                if before.verdict is Some {
                    law_failed_download_installs_nothing(url, platform, events.drop_last());
                } else {
                    lemma_actions_ascend(s0, first, events.drop_last());
                    assert forall|j: int| 0 <= j < earlier.len() implies !(
                    #[trigger] earlier[j] is Install) by {
                        if j < earlier.len() - 1 {
                            assert(action_rank(earlier[j]) < action_rank(
                                earlier[earlier.len() - 1],
                            ));
                        }
                    }
                }
            },
            None => {
                assert(acts =~= earlier);
                law_failed_download_installs_nothing(url, platform, events.drop_last());
            },
        }
    }
}

/// The category of the failure that `event` stands for, if it stands for
/// one that its text alone decides: the HTTP layer fails as a network
/// failure, the file system as an I/O failure.
pub open spec fn category_of(event: UpdateEvent) -> Option<ErrorKind> {
    match event {
        UpdateEvent::DirectoryReady(Some(_)) => Some(ErrorKind::Io),
        UpdateEvent::ScratchReady(Some(_)) => Some(ErrorKind::Io),
        UpdateEvent::ArchiveCreateFailed(_) => Some(ErrorKind::Io),
        UpdateEvent::ArchiveWriteFailed(_) => Some(ErrorKind::Io),
        UpdateEvent::ClientFailed(_) => Some(ErrorKind::Network),
        UpdateEvent::RequestFailed(_) => Some(ErrorKind::Network),
        UpdateEvent::BodyFailed(_) => Some(ErrorKind::Network),
        UpdateEvent::Responded(status) => if is_success(status.code) {
            None
        } else {
            Some(ErrorKind::Network)
        },
        UpdateEvent::LockProbed(true) => Some(ErrorKind::Logic),
        _ => None,
    }
}

/// The failure with which a run ends after `s`: the one in the action
/// where the run ends at once, the one kept for the end otherwise.
pub open spec fn failure_of(after: PipelineView, action: ActionView) -> Option<ErrorView> {
    match action {
        ActionView::Finish(Err(error)) => Some(error),
        ActionView::RemoveScratch => after.verdict,
        _ => None,
    }
}

/// Every failure is reported in its own category: a request that fails in
/// transport, a status that is no success, a body that cannot be read and a
/// client that cannot be built are network failures; a directory or a file
/// that cannot be made or written is an I/O failure; a locked binary is a
/// precondition that does not hold.
pub proof fn law_failures_keep_their_category(s: PipelineView, event: UpdateEvent)
    requires
        next(s, event) is Some,
        category_of(event) is Some,
    ensures
        match next(s, event) {
            Some((after, action)) => match failure_of(after, action) {
                Some(error) => Some(error.kind) == category_of(event),
                None => false,
            },
            None => false,
        },
{
}

/// How many of `events` a run that stood at `s` took as the report that a
/// binary was copied into place.
pub open spec fn accepted_installs(s: PipelineView, events: Seq<UpdateEvent>) -> nat
    decreases events.len(),
{
    if events.len() == 0 {
        0
    } else {
        let before = state_after(s, events.drop_last());
        accepted_installs(s, events.drop_last()) + if next(before, events.last()) is Some
            && events.last() == UpdateEvent::Installed(None) {
            1nat
        } else {
            0nat
        }
    }
}

/// The count that a run reports is the number of binaries that were copied
/// into place, and never more than there are binaries.
pub proof fn law_count_is_what_was_installed(
    url: Seq<char>,
    platform: Platform,
    events: Seq<UpdateEvent>,
)
    ensures
        run_state(url, platform, events).replaced == accepted_installs(
            start(url, platform).0,
            events,
        ),
        run_state(url, platform, events).wf(),
        run_state(url, platform, events).replaced <= 3,
    decreases events.len(),
{
    if events.len() > 0 {
        law_count_is_what_was_installed(url, platform, events.drop_last());
        let before = run_state(url, platform, events.drop_last());
        if next(before, events.last()) is Some {
            law_step_moves_forward(before, events.last());
        }
    }
}

/// A run reports success only where at least one binary was copied into
/// place and no copy failed, and then with the count of the binaries
/// copied; where none was found it reports that, and where a copy failed it
/// reports the count beside the failures.
pub proof fn law_result_reflects_the_installs(s: PipelineView)
    requires
        s.verdict is None,
    ensures
        final_result(s) is Ok <==> s.replaced > 0 && s.failures.len() == 0,
        s.replaced > 0 && s.failures.len() == 0 ==> final_result(s) == Ok::<
            Seq<char>,
            ErrorView,
        >(success_message(s.replaced)),
        s.replaced == 0 && s.failures.len() == 0 ==> final_result(s) == Err::<
            Seq<char>,
            ErrorView,
        >(logic_error(nothing_found_message())),
        s.failures.len() > 0 ==> final_result(s) == Err::<Seq<char>, ErrorView>(
            logic_error(partial_message(s.replaced, s.failures)),
        ),
{
}

} // verus!
