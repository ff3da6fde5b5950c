//! The run as a state machine.
//!
//! A run is a straight line: the arguments are read, the two paths are
//! validated, the executable is converted, the size of the image is
//! reported, the image is copied. Every step but the first needs the outside
//! world: the file system, or the object-copy tool. The machine never
//! touches it. It hands out one [`Action`] at a time, the caller performs
//! the action and hands back the [`Event`] that tells how it went, and the
//! machine decides what comes next. The first failure ends the run.

use crate::args::{argument_view, required_value, required_value_of};
use crate::convert::{
    check_conversion, conversion_verdict, converter_command, converter_command_of, decoded_text,
    ConverterCommand, ConverterCommandView,
};
use crate::error::{CpyError, CpyErrorView};
use crate::paths::{binary_path, binary_path_of, destination, destination_of};
use crate::report::{size_report, size_report_of};
use vstd::prelude::*;

verus! {

/// What the caller is asked to do next.
#[derive(Debug, PartialEq, Eq)]
pub enum Action {
    /// Find out whether `path` names an existing directory.
    ProbeDirectory { path: String },
    /// Find out whether `path` names an existing regular file.
    ProbeFile { path: String },
    /// Run the object-copy tool and wait for it, capturing its error stream.
    Convert { command: ConverterCommand },
    /// Read the length in bytes of the file at `path`.
    ReadSize { path: String },
    /// Print `line` on standard output.
    PrintLine { line: String },
    /// Copy the bytes of the file at `from` to `to`, replacing what is there.
    CopyFile { from: String, to: String },
    /// End the run successfully.
    Finish,
    /// End the run with `error`.
    Fail { error: CpyError },
}

/// The mathematical value of an [`Action`].
pub enum ActionView {
    ProbeDirectory { path: Seq<char> },
    ProbeFile { path: Seq<char> },
    Convert { command: ConverterCommandView },
    ReadSize { path: Seq<char> },
    PrintLine { line: Seq<char> },
    CopyFile { from: Seq<char>, to: Seq<char> },
    Finish,
    Fail { error: CpyErrorView },
}

impl View for Action {
    type V = ActionView;

    open spec fn view(&self) -> ActionView {
        match self {
            Action::ProbeDirectory { path } => ActionView::ProbeDirectory { path: path@ },
            Action::ProbeFile { path } => ActionView::ProbeFile { path: path@ },
            Action::Convert { command } => ActionView::Convert { command: command@ },
            Action::ReadSize { path } => ActionView::ReadSize { path: path@ },
            Action::PrintLine { line } => ActionView::PrintLine { line: line@ },
            Action::CopyFile { from, to } => ActionView::CopyFile { from: from@, to: to@ },
            Action::Finish => ActionView::Finish,
            Action::Fail { error } => ActionView::Fail { error: error@ },
        }
    }
}

/// How an action went.
#[derive(Debug, PartialEq, Eq)]
pub enum Event {
    /// The answer to a probe: whether the path names what was asked for.
    Probed { holds: bool },
    /// The object-copy tool has exited: whether its status reports success,
    /// and the bytes that it wrote to its error stream.
    ConverterExited { success: bool, stderr: Vec<u8> },
    /// The length in bytes of the file that was asked about.
    SizeRead { len: u64 },
    /// The line has been printed.
    Printed,
    /// The file has been copied.
    Copied,
    /// The operating system refused the action; `cause` is its description
    /// of the error.
    IoFailed { cause: String },
}

/// The mathematical value of an [`Event`].
pub enum EventView {
    Probed { holds: bool },
    ConverterExited { success: bool, stderr: Seq<u8> },
    SizeRead { len: u64 },
    Printed,
    Copied,
    IoFailed { cause: Seq<char> },
}

impl View for Event {
    type V = EventView;

    open spec fn view(&self) -> EventView {
        match self {
            Event::Probed { holds } => EventView::Probed { holds: *holds },
            Event::ConverterExited { success, stderr } => EventView::ConverterExited {
                success: *success,
                stderr: stderr@,
            },
            Event::SizeRead { len } => EventView::SizeRead { len: *len },
            Event::Printed => EventView::Printed,
            Event::Copied => EventView::Copied,
            Event::IoFailed { cause } => EventView::IoFailed { cause: cause@ },
        }
    }
}

/// How far a run has come. Each stage but the last two has one action
/// pending, and waits for the event that answers it.
#[derive(Debug, PartialEq, Eq)]
pub enum Stage {
    /// Both arguments are there; the output location is being probed.
    ArgsRead,
    /// The output location is a directory; the input is being probed.
    OutputChecked,
    /// Both paths are valid; the object-copy tool is running.
    Validated,
    /// The image has been produced; its size is being read.
    Converted,
    /// The image has `len` bytes; the report line is being printed.
    Measured { len: u64 },
    /// The size has been reported; the image is being copied to
    /// `destination`.
    Reported { destination: String },
    /// The image is at its destination: the run has succeeded.
    Copied,
    /// The run has failed with `error`.
    Failed { error: CpyError },
}

/// The mathematical value of a [`Stage`].
pub enum StageView {
    ArgsRead,
    OutputChecked,
    Validated,
    Converted,
    Measured { len: u64 },
    Reported { destination: Seq<char> },
    Copied,
    Failed { error: CpyErrorView },
}

impl View for Stage {
    type V = StageView;

    open spec fn view(&self) -> StageView {
        match self {
            Stage::ArgsRead => StageView::ArgsRead,
            Stage::OutputChecked => StageView::OutputChecked,
            Stage::Validated => StageView::Validated,
            Stage::Converted => StageView::Converted,
            Stage::Measured { len } => StageView::Measured { len: *len },
            Stage::Reported { destination } => StageView::Reported { destination: destination@ },
            Stage::Copied => StageView::Copied,
            Stage::Failed { error } => StageView::Failed { error: error@ },
        }
    }
}

/// One run of the command: its two arguments, and how far it has come.
#[derive(Debug, PartialEq, Eq)]
pub struct Pipeline {
    /// How far the run has come.
    pub stage: Stage,
    /// The directory that receives the image.
    pub output: String,
    /// The executable to convert.
    pub input: String,
}

/// The mathematical value of a [`Pipeline`].
pub struct PipelineView {
    pub stage: StageView,
    pub output: Seq<char>,
    pub input: Seq<char>,
}

impl View for Pipeline {
    type V = PipelineView;

    open spec fn view(&self) -> PipelineView {
        PipelineView { stage: self.stage@, output: self.output@, input: self.input@ }
    }
}

/// The name under which a missing output location is reported.
pub open spec fn output_name() -> Seq<char> {
    "Output"@
}

/// The name under which a missing input is reported.
pub open spec fn input_name() -> Seq<char> {
    "Input"@
}

/// The run that starts from the two arguments as the command line gave
/// them. The output location is looked at first, so when both are missing
/// the failure names the output location.
pub open spec fn started(output: Option<Seq<char>>, input: Option<Seq<char>>) -> Result<
    PipelineView,
    CpyErrorView,
> {
    match required_value_of(output, output_name()) {
        Err(error) => Err(error),
        Ok(output) => match required_value_of(input, input_name()) {
            Err(error) => Err(error),
            Ok(input) => Ok(PipelineView { stage: StageView::ArgsRead, output, input }),
        },
    }
}

/// The stage that an event leads to when it does not answer the pending
/// action: a refusal by the operating system fails the run with its cause,
/// anything else is a breach of the protocol.
pub open spec fn stray(event: EventView) -> StageView {
    match event {
        EventView::IoFailed { cause } => StageView::Failed { error: CpyErrorView::Io { cause } },
        _ => StageView::Failed { error: CpyErrorView::UnexpectedEvent },
    }
}

/// The stage that follows `run.stage` on `event`.
pub open spec fn next_stage(run: PipelineView, event: EventView) -> StageView {
    match run.stage {
        StageView::ArgsRead => match event {
            EventView::Probed { holds } => if holds {
                StageView::OutputChecked
            } else {
                StageView::Failed { error: CpyErrorView::OutputNotDirectory }
            },
            _ => stray(event),
        },
        StageView::OutputChecked => match event {
            EventView::Probed { holds } => if holds {
                StageView::Validated
            } else {
                StageView::Failed { error: CpyErrorView::InputNotFile }
            },
            _ => stray(event),
        },
        StageView::Validated => match event {
            EventView::ConverterExited { success, stderr } => match conversion_verdict(
                success,
                decoded_text(stderr),
            ) {
                Ok(_) => StageView::Converted,
                Err(error) => StageView::Failed { error },
            },
            _ => stray(event),
        },
        StageView::Converted => match event {
            EventView::SizeRead { len } => StageView::Measured { len },
            _ => stray(event),
        },
        StageView::Measured { .. } => match event {
            EventView::Printed => match destination_of(run.output, binary_path_of(run.input)) {
                Ok(destination) => StageView::Reported { destination },
                Err(error) => StageView::Failed { error },
            },
            _ => stray(event),
        },
        StageView::Reported { .. } => match event {
            EventView::Copied => StageView::Copied,
            _ => stray(event),
        },
        StageView::Copied => StageView::Copied,
        StageView::Failed { error } => StageView::Failed { error },
    }
}

/// The run after `event`: the arguments stay, the stage moves on.
pub open spec fn advance(run: PipelineView, event: EventView) -> PipelineView {
    PipelineView { stage: next_stage(run, event), output: run.output, input: run.input }
}

/// The action that `run` is waiting for.
pub open spec fn pending(run: PipelineView) -> ActionView {
    match run.stage {
        StageView::ArgsRead => ActionView::ProbeDirectory { path: run.output },
        StageView::OutputChecked => ActionView::ProbeFile { path: run.input },
        StageView::Validated => ActionView::Convert {
            command: converter_command_of(run.input, binary_path_of(run.input)),
        },
        StageView::Converted => ActionView::ReadSize { path: binary_path_of(run.input) },
        StageView::Measured { len } => ActionView::PrintLine { line: size_report_of(len) },
        StageView::Reported { destination } => ActionView::CopyFile {
            from: binary_path_of(run.input),
            to: destination,
        },
        StageView::Copied => ActionView::Finish,
        StageView::Failed { error } => ActionView::Fail { error },
    }
}

/// The run that `events` lead to from `run`, taken in one after the other.
pub open spec fn state_after(run: PipelineView, events: Seq<EventView>) -> PipelineView
    decreases events.len(),
{
    if events.len() == 0 {
        run
    } else {
        advance(state_after(run, events.drop_last()), events.last())
    }
}

/// The actions handed out while `events` arrive: the one pending at the
/// start, then the one pending after each event.
pub open spec fn actions_of(run: PipelineView, events: Seq<EventView>) -> Seq<ActionView> {
    Seq::new((events.len() + 1) as nat, |i: int| pending(state_after(run, events.take(i))))
}

/// The values of a list of events.
pub open spec fn events_view(events: Seq<Event>) -> Seq<EventView> {
    Seq::new(events.len(), |i: int| events[i]@)
}

/// The values of a list of actions.
pub open spec fn actions_view(actions: Seq<Action>) -> Seq<ActionView> {
    Seq::new(actions.len(), |i: int| actions[i]@)
}

/// Whether `run` has ended, in success or in failure.
pub open spec fn ended(run: PipelineView) -> bool {
    run.stage is Copied || run.stage is Failed
}

/// The value of a fallible start.
pub open spec fn start_view(result: Result<Pipeline, CpyError>) -> Result<
    PipelineView,
    CpyErrorView,
> {
    match result {
        Ok(run) => Ok(run@),
        Err(error) => Err(error@),
    }
}

/// The stage that a stray event leads to.
fn stray_stage(event: Event) -> (stage: Stage)
    ensures
        stage@ == stray(event@),
{
    match event {
        Event::IoFailed { cause } => Stage::Failed { error: CpyError::Io { cause } },
        _ => Stage::Failed { error: CpyError::UnexpectedEvent },
    }
}

impl Pipeline {
    /// Starts a run from the two arguments as the command line gave them:
    /// `output`, the directory that receives the image, and `input`, the
    /// executable to convert. Both are required and neither may be empty.
    pub fn start(output: Option<&str>, input: Option<&str>) -> (run: Result<Pipeline, CpyError>)
        ensures
            start_view(run) == started(argument_view(output), argument_view(input)),
    {
        let output = match required_value(output, "Output") {
            Ok(text) => text,
            Err(error) => {
                return Err(error);
            },
        };
        let input = match required_value(input, "Input") {
            Ok(text) => text,
            Err(error) => {
                return Err(error);
            },
        };
        Ok(Pipeline { stage: Stage::ArgsRead, output, input })
    }

    /// The action that the run is waiting for. A run that has ended waits
    /// for nothing more than to be ended: it answers `Finish` or `Fail`.
    pub fn pending(&self) -> (action: Action)
        ensures
            action@ == pending(self@),
    {
        match &self.stage {
            Stage::ArgsRead => Action::ProbeDirectory { path: self.output.clone() },
            Stage::OutputChecked => Action::ProbeFile { path: self.input.clone() },
            Stage::Validated => {
                let binary = binary_path(self.input.as_str());
                Action::Convert {
                    command: converter_command(self.input.as_str(), binary.as_str()),
                }
            },
            Stage::Converted => Action::ReadSize { path: binary_path(self.input.as_str()) },
            Stage::Measured { len } => Action::PrintLine { line: size_report(*len) },
            Stage::Reported { destination } => Action::CopyFile {
                from: binary_path(self.input.as_str()),
                to: destination.clone(),
            },
            Stage::Copied => Action::Finish,
            Stage::Failed { error } => Action::Fail { error: error.clone() },
        }
    }

    /// The stage that follows the present one on `event`.
    fn following(&self, event: Event) -> (stage: Stage)
        ensures
            stage@ == next_stage(self@, event@),
    {
        match &self.stage {
            Stage::ArgsRead => match event {
                Event::Probed { holds } => {
                    if holds {
                        Stage::OutputChecked
                    } else {
                        Stage::Failed { error: CpyError::OutputNotDirectory }
                    }
                },
                other => stray_stage(other),
            },
            Stage::OutputChecked => match event {
                Event::Probed { holds } => {
                    if holds {
                        Stage::Validated
                    } else {
                        Stage::Failed { error: CpyError::InputNotFile }
                    }
                },
                other => stray_stage(other),
            },
            Stage::Validated => match event {
                Event::ConverterExited { success, stderr } => {
                    match check_conversion(success, stderr) {
                        Ok(_) => Stage::Converted,
                        Err(error) => Stage::Failed { error },
                    }
                },
                other => stray_stage(other),
            },
            Stage::Converted => match event {
                Event::SizeRead { len } => Stage::Measured { len },
                other => stray_stage(other),
            },
            Stage::Measured { .. } => match event {
                Event::Printed => {
                    let binary = binary_path(self.input.as_str());
                    match destination(self.output.as_str(), binary.as_str()) {
                        Ok(destination) => Stage::Reported { destination },
                        Err(error) => Stage::Failed { error },
                    }
                },
                other => stray_stage(other),
            },
            Stage::Reported { .. } => match event {
                Event::Copied => Stage::Copied,
                other => stray_stage(other),
            },
            Stage::Copied => Stage::Copied,
            Stage::Failed { error } => Stage::Failed { error: error.clone() },
        }
    }

    /// Takes in the event that answers the pending action, moves the run to
    /// its next stage and hands out the action that is pending there.
    ///
    /// An event that does not answer the pending action fails the run. A
    /// run that has ended stays as it is, whatever arrives.
    pub fn step(&mut self, event: Event) -> (action: Action)
        ensures
            final(self)@ == advance(old(self)@, event@),
            action@ == pending(final(self)@),
    {
        let stage = self.following(event);
        self.stage = stage;
        self.pending()
    }

    /// Takes in a whole list of events, one after the other, and returns
    /// the actions that were handed out on the way: the one pending at the
    /// start, then the one pending after each event.
    ///
    /// This is a run against a scripted world: the events say how each
    /// action would have gone, and nothing is performed.
    pub fn replay(&mut self, events: Vec<Event>) -> (actions: Vec<Action>)
        ensures
            final(self)@ == state_after(old(self)@, events_view(events@)),
            actions_view(actions@) == actions_of(old(self)@, events_view(events@)),
    {
        let ghost start = self@;
        let ghost script = events_view(events@);
        let mut actions: Vec<Action> = Vec::new();
        actions.push(self.pending());
        assert(script.take(0) == Seq::<EventView>::empty());
        for event in iter: events
            invariant
                iter.seq() == events@,
                script == events_view(events@),
                self@ == state_after(start, script.take(iter.index())),
                actions@.len() == iter.index() + 1,
                forall|k: int|
                    0 <= k <= iter.index() ==> (#[trigger] actions@[k])@ == pending(
                        state_after(start, script.take(k)),
                    ),
        {
            proof {
                let next = iter.index() + 1;
                assert(script.take(next).drop_last() == script.take(next - 1));
                assert(script.take(next).last() == event@);
            }
            let action = self.step(event);
            actions.push(action);
        }
        assert(script.take(script.len() as int) == script);
        actions
    }
}

} // verus!
