//! What holds of every supervised download.

use vstd::prelude::*;

use crate::downloader::{
    announced_path, completed_notice, final_extension, lossy_text, notes_for_exit,
    notes_for_line, observed, outcome_text, path_after_line, Channel, NotificationView,
    ProcessEvent,
};
use crate::text::{ends_with, lemma_blank_is_empty_when_trimmed, trim};

verus! {

/// The best-known path after the events `events`, taken in order.
pub open spec fn path_after(known: Option<Seq<char>>, events: Seq<ProcessEvent>) -> Option<
    Seq<char>,
>
    decreases events.len(),
{
    if events.len() == 0 {
        known
    } else {
        observed(path_after(known, events.drop_last()), events.last()).0
    }
}

/// Every notification passed on for the events `events`, in order.
pub open spec fn notes_after(known: Option<Seq<char>>, events: Seq<ProcessEvent>) -> Seq<
    NotificationView,
>
    decreases events.len(),
{
    if events.len() == 0 {
        Seq::empty()
    } else {
        notes_after(known, events.drop_last()) + observed(
            path_after(known, events.drop_last()),
            events.last(),
        ).1
    }
}

/// The text of the line that `event` carries, if it carries one.
pub open spec fn line_of(event: ProcessEvent) -> Option<Seq<char>> {
    match event {
        ProcessEvent::Stdout(bytes) => Some(lossy_text(bytes@)),
        ProcessEvent::Stderr(bytes) => Some(lossy_text(bytes@)),
        _ => None,
    }
}

/// `line` announces a path with the final extension.
pub open spec fn announces_final_file(line: Seq<char>) -> bool {
    announced_path(line) matches Some(path) && ends_with(path, final_extension())
}

/// A line that announces a path with the final extension replaces whatever
/// path was known; any other line, one that announces a path with another
/// extension too, leaves the known path as it was.
pub proof fn law_only_final_destinations_count(known: Option<Seq<char>>, line: Seq<char>)
    ensures
        announces_final_file(line) ==> path_after_line(known, line) == announced_path(line),
        !announces_final_file(line) ==> path_after_line(known, line) == known,
{
}

/// A line is passed on, as it stands, exactly where trimming it leaves
/// something; a line of whitespace alone is dropped.
pub proof fn law_lines_are_passed_on_verbatim(line: Seq<char>)
    ensures
        trim(line).len() == 0 ==> notes_for_line(line) == Seq::<NotificationView>::empty(),
        trim(line).len() > 0 ==> notes_for_line(line) == seq![
            NotificationView { channel: Channel::Progress, payload: line },
        ],
{
    lemma_blank_is_empty_when_trimmed(line);
}

/// Where no line of either stream announces a final file, no path is known
/// in the end: after exit code 0 the only notification is the notice of
/// completion, and the caller gets the plain notice, not an error.
pub proof fn law_silent_run_falls_back(events: Seq<ProcessEvent>)
    requires
        forall|i: int|
            0 <= i < events.len() ==> (line_of(#[trigger] events[i]) matches Some(line)
                ==> !announces_final_file(line)),
    ensures
        path_after(None, events) is None,
        outcome_text(path_after(None, events)) == "Download completed"@,
        notes_for_exit(path_after(None, events), Some(0i32)) == seq![
            NotificationView { channel: Channel::Progress, payload: completed_notice() },
        ],
    decreases events.len(),
{
    if events.len() > 0 {
        let earlier = events.drop_last();
        assert forall|i: int| 0 <= i < earlier.len() implies (line_of(
            #[trigger] earlier[i],
        ) matches Some(line) ==> !announces_final_file(line)) by {
            assert(earlier[i] == events[i]);
        }
        law_silent_run_falls_back(earlier);
    }
}

/// The notifications for a stream of events are those for its first part
/// followed by those for the rest: the order in which events arrive is the
/// order in which their lines are passed on.
pub proof fn law_notifications_keep_order(
    known: Option<Seq<char>>,
    first: Seq<ProcessEvent>,
    rest: Seq<ProcessEvent>,
)
    ensures
        path_after(known, first + rest) == path_after(path_after(known, first), rest),
        notes_after(known, first + rest) == notes_after(known, first) + notes_after(
            path_after(known, first),
            rest,
        ),
    decreases rest.len(),
{
    if rest.len() == 0 {
        assert(notes_after(known, first) + Seq::<NotificationView>::empty() =~= notes_after(
            known,
            first,
        ));
    } else {
        law_notifications_keep_order(known, first, rest.drop_last());
        assert((first + rest).drop_last() =~= first + rest.drop_last());
        assert(notes_after(known, first + rest) =~= notes_after(known, first) + notes_after(
            path_after(known, first),
            rest,
        ));
    }
}

/// The exit of the process never changes the known path, and an end with a
/// code other than zero yields one line of progress and nothing on the
/// completion channel.
pub proof fn law_exit_is_reported_not_raised(known: Option<Seq<char>>, code: Option<i32>)
    ensures
        observed(known, ProcessEvent::Terminated(code)).0 == known,
        code != Some(0i32) ==> notes_for_exit(known, code).len() == 1 && notes_for_exit(
            known,
            code,
        )[0].channel == Channel::Progress,
{
}

} // verus!
