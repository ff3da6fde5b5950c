//! Whole runs: what holds of every sequence of events that a run can meet.
//!
//! A run starts at [`StageView::ArgsRead`], and every event moves it by
//! [`advance`]. The theorems here speak of the stage that a sequence of
//! events leads to and of the actions that are handed out on the way.

use crate::convert::converter_command_of;
use crate::error::{CpyErrorView, ErrorKind};
use crate::paths::{binary_path_of, destination_of};
use crate::pipeline::{
    actions_of, advance, ended, state_after, ActionView, EventView, PipelineView, StageView,
};
use crate::report::size_report_of;
use vstd::prelude::*;
use vstd::utf8::{decode_utf8, valid_utf8};

verus! {

/// Whether `action` changes anything on disk: running the object-copy tool
/// writes the image, copying writes its destination.
pub open spec fn writes(action: ActionView) -> bool {
    action is Convert || action is CopyFile
}

/// Whether `event` answers a probe with yes.
pub open spec fn confirms(event: EventView) -> bool {
    event == (EventView::Probed { holds: true })
}

/// Whether `event` tells of a conversion that succeeded: the tool reported
/// success and its error stream is text.
pub open spec fn converts(event: EventView) -> bool {
    event matches EventView::ConverterExited { success, stderr } && success && valid_utf8(stderr)
}

/// Whether the first `count` of `events` are the answers that let a run
/// proceed: two probes answered with yes, a conversion that succeeded, a
/// size, a printed line, a finished copy.
pub open spec fn proceeds(events: Seq<EventView>, count: int) -> bool {
    &&& count <= events.len()
    &&& (count >= 1 ==> confirms(events[0]))
    &&& (count >= 2 ==> confirms(events[1]))
    &&& (count >= 3 ==> converts(events[2]))
    &&& (count >= 4 ==> events[3] is SizeRead)
    &&& (count >= 5 ==> events[4] is Printed)
    &&& (count >= 6 ==> events[5] is Copied)
}

/// What the stage of a run tells about the events that led to it.
spec fn explains(run: PipelineView, events: Seq<EventView>, end: PipelineView) -> bool {
    let n = events.len();
    let target = destination_of(run.output, binary_path_of(run.input));
    &&& end.output == run.output
    &&& end.input == run.input
    &&& match end.stage {
        StageView::ArgsRead => n == 0,
        StageView::OutputChecked => n == 1 && proceeds(events, 1),
        StageView::Validated => n == 2 && proceeds(events, 2),
        StageView::Converted => n == 3 && proceeds(events, 3),
        StageView::Measured { len } => {
            &&& n == 4
            &&& proceeds(events, 4)
            &&& events[3] == (EventView::SizeRead { len })
        },
        StageView::Reported { destination } => {
            &&& n == 5
            &&& proceeds(events, 5)
            &&& target matches Ok(place)
            &&& place == destination
        },
        StageView::Copied => n >= 6 && proceeds(events, 6) && target is Ok,
        StageView::Failed { .. } => n >= 1,
    }
}

/// Taking in one more event is one more step.
proof fn lemma_state_after_take(run: PipelineView, events: Seq<EventView>, i: int)
    requires
        0 < i <= events.len(),
    ensures
        state_after(run, events.take(i)) == advance(
            state_after(run, events.take(i - 1)),
            events[i - 1],
        ),
{
    assert(events.take(i).drop_last() == events.take(i - 1));
    assert(events.take(i).last() == events[i - 1]);
}

/// The stage of a run explains the events that led to it.
proof fn lemma_history(run: PipelineView, events: Seq<EventView>)
    requires
        run.stage is ArgsRead,
    ensures
        explains(run, events, state_after(run, events)),
    decreases events.len(),
{
    if events.len() > 0 {
        let before = events.drop_last();
        lemma_history(run, before);
        assert(forall|i: int| 0 <= i < before.len() ==> before[i] == events[i]);
    }
}

/// The stage of every prefix of a run explains that prefix.
proof fn lemma_history_of_prefix(run: PipelineView, events: Seq<EventView>, i: int)
    requires
        run.stage is ArgsRead,
        0 <= i <= events.len(),
    ensures
        explains(run, events.take(i), state_after(run, events.take(i))),
        proceeds(events.take(i), i) ==> proceeds(events, i),
{
    lemma_history(run, events.take(i));
}

/// A run that meets the answers that let it proceed is at the stage that
/// those answers lead to.
proof fn lemma_proceeding(run: PipelineView, events: Seq<EventView>, i: int)
    requires
        run.stage is ArgsRead,
        0 <= i <= events.len(),
        i <= 6,
        proceeds(events, i),
        i >= 5 ==> destination_of(run.output, binary_path_of(run.input)) is Ok,
    ensures
        state_after(run, events.take(i)).output == run.output,
        state_after(run, events.take(i)).input == run.input,
        i == 0 ==> state_after(run, events.take(i)).stage is ArgsRead,
        i == 1 ==> state_after(run, events.take(i)).stage is OutputChecked,
        i == 2 ==> state_after(run, events.take(i)).stage is Validated,
        i == 3 ==> state_after(run, events.take(i)).stage is Converted,
        i == 4 ==> state_after(run, events.take(i)).stage == (StageView::Measured {
            len: events[3]->len,
        }),
        i == 5 ==> state_after(run, events.take(i)).stage == (StageView::Reported {
            destination: destination_of(run.output, binary_path_of(run.input))->Ok_0,
        }),
        i == 6 ==> state_after(run, events.take(i)).stage is Copied,
    decreases i,
{
    if i > 0 {
        lemma_proceeding(run, events, i - 1);
        lemma_state_after_take(run, events, i);
    }
}

/// The first failure ends the run, and so does success: once a run has
/// ended, no event changes it any more.
pub proof fn lemma_ended_runs_stay(run: PipelineView, events: Seq<EventView>, i: int, j: int)
    requires
        0 <= i <= j <= events.len(),
        ended(state_after(run, events.take(i))),
    ensures
        state_after(run, events.take(j)) == state_after(run, events.take(i)),
    decreases j - i,
{
    if i < j {
        lemma_ended_runs_stay(run, events, i, j - 1);
        lemma_state_after_take(run, events, j);
    }
}

/// The place of a stage in the line of stages that a run goes through.
pub open spec fn rank(stage: StageView) -> int {
    match stage {
        StageView::ArgsRead => 0,
        StageView::OutputChecked => 1,
        StageView::Validated => 2,
        StageView::Converted => 3,
        StageView::Measured { .. } => 4,
        StageView::Reported { .. } => 5,
        StageView::Copied => 6,
        StageView::Failed { .. } => 7,
    }
}

/// The stages form one line, without branches and without a way back: an
/// event takes a run that has not ended to the stage that comes next in
/// line, or to failure. The arguments never change.
pub proof fn lemma_stages_form_a_line(run: PipelineView, event: EventView)
    ensures
        advance(run, event).output == run.output,
        advance(run, event).input == run.input,
        ended(run) ==> advance(run, event) == run,
        !ended(run) ==> ({
            ||| rank(advance(run, event).stage) == rank(run.stage) + 1
            ||| advance(run, event).stage is Failed
        }),
{
}

/// No run stops half-way: once six events have arrived, the run has ended,
/// in success or with an error to report.
///
/// And a run succeeds in one way only: exactly when both paths were
/// confirmed, the conversion succeeded, the size was read, the line was
/// printed, the derived binary path has a file name and the copy went
/// through. The actions handed out were then, in this order, the two
/// probes, the conversion of the input into the derived binary path, the
/// reading of that file's size, the printing of the report line for the
/// very size that was read, and the copy of that file into the output
/// directory under its own file name; and nothing is left to do but to
/// finish.
pub proof fn lemma_run_copies_or_fails(run: PipelineView, events: Seq<EventView>)
    requires
        run.stage is ArgsRead,
    ensures
        events.len() >= 6 ==> ended(state_after(run, events)),
        state_after(run, events).stage is Copied <==> proceeds(events, 6) && destination_of(
            run.output,
            binary_path_of(run.input),
        ) is Ok,
        state_after(run, events).stage is Copied ==> ({
            let binary = binary_path_of(run.input);
            let actions = actions_of(run, events);
            &&& actions[0] == (ActionView::ProbeDirectory { path: run.output })
            &&& actions[1] == (ActionView::ProbeFile { path: run.input })
            &&& actions[2] == (ActionView::Convert {
                command: converter_command_of(run.input, binary),
            })
            &&& actions[3] == (ActionView::ReadSize { path: binary })
            &&& actions[4] == (ActionView::PrintLine { line: size_report_of(events[3]->len) })
            &&& actions[5] == (ActionView::CopyFile {
                from: binary,
                to: destination_of(run.output, binary)->Ok_0,
            })
            &&& forall|i: int| 6 <= i <= events.len() ==> #[trigger] actions[i] is Finish
        }),
        state_after(run, events).stage matches StageView::Failed { error } ==> actions_of(
            run,
            events,
        ).last() == (ActionView::Fail { error }),
{
    lemma_history(run, events);
    assert(events.take(events.len() as int) == events);
    if proceeds(events, 6) && destination_of(run.output, binary_path_of(run.input)) is Ok {
        lemma_proceeding(run, events, 6);
        lemma_ended_runs_stay(run, events, 6, events.len() as int);
    }
    if state_after(run, events).stage is Copied {
        let actions = actions_of(run, events);
        lemma_proceeding(run, events, 0);
        lemma_proceeding(run, events, 1);
        lemma_proceeding(run, events, 2);
        lemma_proceeding(run, events, 3);
        lemma_proceeding(run, events, 4);
        lemma_proceeding(run, events, 5);
        lemma_proceeding(run, events, 6);
        assert forall|i: int| 6 <= i <= events.len() implies #[trigger] actions[i] is Finish by {
            lemma_ended_runs_stay(run, events, 6, i);
        }
    }
}

/// Nothing is written before both paths are confirmed: whenever an action
/// that writes is handed out, the output location was confirmed to be a
/// directory and the input to be a file. And nothing is copied before the
/// conversion has succeeded.
pub proof fn lemma_writes_follow_validation(run: PipelineView, events: Seq<EventView>, i: int)
    requires
        run.stage is ArgsRead,
        0 <= i <= events.len(),
    ensures
        writes(actions_of(run, events)[i]) ==> proceeds(events, 2),
        actions_of(run, events)[i] is CopyFile ==> proceeds(events, 5),
{
    lemma_history_of_prefix(run, events, i);
}

/// An input that is not an existing regular file fails the run with a
/// validation error, and no action that writes is ever handed out. The
/// error is that of the input, unless the output location was found wanting
/// first: then the input is never asked about, and the error is that of the
/// output location.
pub proof fn lemma_invalid_input_fails(run: PipelineView, events: Seq<EventView>)
    requires
        run.stage is ArgsRead,
        events.len() >= 2,
        events[0] is Probed,
        events[1] == (EventView::Probed { holds: false }),
    ensures
        events[0]->holds ==> state_after(run, events).stage == (StageView::Failed {
            error: CpyErrorView::InputNotFile,
        }),
        !events[0]->holds ==> state_after(run, events).stage == (StageView::Failed {
            error: CpyErrorView::OutputNotDirectory,
        }),
        state_after(run, events).stage->error.kind() == ErrorKind::Validation,
        forall|i: int|
            0 <= i <= events.len() ==> !writes(#[trigger] actions_of(run, events)[i]),
{
    lemma_proceeding(run, events, 0);
    lemma_state_after_take(run, events, 1);
    lemma_state_after_take(run, events, 2);
    lemma_ended_runs_stay(run, events, 2, events.len() as int);
    assert(events.take(events.len() as int) == events);
    assert forall|i: int| 0 <= i <= events.len() implies !writes(
        #[trigger] actions_of(run, events)[i],
    ) by {
        lemma_writes_follow_validation(run, events, i);
    }
}

/// An output location that is not an existing directory fails the run with
/// a validation error before anything else is looked at: the input is not
/// probed, the tool is not run, nothing is copied.
pub proof fn lemma_invalid_output_fails(run: PipelineView, events: Seq<EventView>)
    requires
        run.stage is ArgsRead,
        events.len() >= 1,
        events[0] == (EventView::Probed { holds: false }),
    ensures
        state_after(run, events).stage == (StageView::Failed {
            error: CpyErrorView::OutputNotDirectory,
        }),
        state_after(run, events).stage->error.kind() == ErrorKind::Validation,
        actions_of(run, events)[0] == (ActionView::ProbeDirectory { path: run.output }),
        forall|i: int|
            1 <= i <= events.len() ==> #[trigger] actions_of(run, events)[i] == (ActionView::Fail {
                error: CpyErrorView::OutputNotDirectory,
            }),
{
    lemma_proceeding(run, events, 0);
    lemma_state_after_take(run, events, 1);
    lemma_ended_runs_stay(run, events, 1, events.len() as int);
    assert(events.take(events.len() as int) == events);
    assert forall|i: int| 1 <= i <= events.len() implies #[trigger] actions_of(run, events)[i]
        == (ActionView::Fail { error: CpyErrorView::OutputNotDirectory }) by {
        lemma_ended_runs_stay(run, events, 1, i);
    }
}

/// A tool that exits with a failure status fails the run with a conversion
/// error, and nothing is copied. If what the tool wrote to its error stream
/// is text, the message of the error ends with that text, unchanged.
pub proof fn lemma_failed_conversion_fails(
    run: PipelineView,
    events: Seq<EventView>,
    stderr: Seq<u8>,
)
    requires
        run.stage is ArgsRead,
        events.len() >= 3,
        proceeds(events, 2),
        events[2] == (EventView::ConverterExited { success: false, stderr }),
    ensures
        state_after(run, events).stage is Failed,
        state_after(run, events).stage->error.kind() == ErrorKind::Conversion,
        valid_utf8(stderr) ==> state_after(run, events).stage->error.message()
            == "Obj copy failed: "@ + decode_utf8(stderr),
        forall|i: int|
            0 <= i <= events.len() ==> !(#[trigger] actions_of(run, events)[i] is CopyFile),
{
    lemma_proceeding(run, events, 2);
    lemma_state_after_take(run, events, 3);
    lemma_ended_runs_stay(run, events, 3, events.len() as int);
    assert(events.take(events.len() as int) == events);
    assert forall|i: int| 0 <= i <= events.len() implies !(#[trigger] actions_of(run, events)[i]
        is CopyFile) by {
        lemma_writes_follow_validation(run, events, i);
    }
}

/// What is copied, and where to, depends on the two arguments alone: any
/// two runs on the same arguments that come to copy, whatever happened to
/// them on the way, copy the same file to the same place.
pub proof fn lemma_copy_depends_on_arguments_alone(
    run: PipelineView,
    first: Seq<EventView>,
    i: int,
    second: Seq<EventView>,
    j: int,
)
    requires
        run.stage is ArgsRead,
        0 <= i <= first.len(),
        0 <= j <= second.len(),
        actions_of(run, first)[i] is CopyFile,
        actions_of(run, second)[j] is CopyFile,
    ensures
        actions_of(run, first)[i] == actions_of(run, second)[j],
{
    lemma_history_of_prefix(run, first, i);
    lemma_history_of_prefix(run, second, j);
}

} // verus!
