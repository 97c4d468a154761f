//! Bookkeeping for commands that run on a pseudo-terminal.
//!
//! Starting the process and reading its output is the caller's business.
//! This module keeps the record of each job and makes the decisions: what
//! a report from a job's background tasks does to its record, when the
//! pseudo-terminal has to be told about a new size, and how the reading
//! task goes on after each read.

use vstd::prelude::*;

use crate::geometry::Rect;

verus! {

/// The most bytes the reading task asks for in one read.
pub const CHUNK_SIZE: usize = 255;

/// The size of a job's terminal window.
#[derive(Clone, Copy, Debug, PartialEq, Eq, Structural)]
pub struct Dimensions {
    pub rows: u16,
    pub columns: u16,
}

impl Dimensions {
    /// The window size that fills `area`.
    pub fn of_area(area: &Rect) -> (dimensions: Dimensions)
        ensures
            dimensions == (Dimensions { rows: area.height, columns: area.width }),
    {
        Dimensions { rows: area.height, columns: area.width }
    }
}

/// What is known about a job's process.
#[derive(Clone, Copy, Debug, PartialEq, Eq, Structural)]
pub enum JobStatus {
    /// The process was started and has not been seen to end.
    Running,
    /// The process ended, with this exit code unless a signal ended it.
    Exited(Option<i32>),
    /// The process could not be started; carries the error number.
    Failed(i32),
}

/// A report about one job from its background tasks.
#[derive(Debug, PartialEq, Eq)]
pub enum JobEvent {
    /// The reading task delivered a chunk of output.
    Output(Vec<u8>),
    /// The reading task ended, at the end of the stream or on a fatal
    /// error: no more output will come.
    StreamClosed,
    /// The waiting task saw the process end.
    Exited(Option<i32>),
}

/// How one read from the pseudo-terminal ended.
#[derive(Clone, Copy, Debug, PartialEq, Eq, Structural)]
pub enum ReadOutcome {
    /// The read returned this many bytes; none means the end of the
    /// stream.
    Read(usize),
    /// The read was interrupted before it got any data.
    Interrupted,
    /// No data was ready.
    WouldBlock,
    /// The read failed for good, with this error number.
    Failed(i32),
}

/// What the reading task does next.
#[derive(Clone, Copy, Debug, PartialEq, Eq, Structural)]
pub enum ReaderStep {
    /// Deliver this many bytes, then read again.
    Forward(usize),
    /// Read again.
    Retry,
    /// End the task; the job's stream is closed.
    Stop,
}

/// The step that follows `outcome`: data is forwarded, a passing error
/// is retried, the end of the stream and every other error stop the task.
pub open spec fn step_after(outcome: ReadOutcome) -> ReaderStep {
    match outcome {
        ReadOutcome::Read(n) => if n == 0 {
            ReaderStep::Stop
        } else {
            ReaderStep::Forward(n)
        },
        ReadOutcome::Interrupted => ReaderStep::Retry,
        ReadOutcome::WouldBlock => ReaderStep::Retry,
        ReadOutcome::Failed(_) => ReaderStep::Stop,
    }
}

/// Decides how the reading task goes on after a read.
pub fn reader_step(outcome: ReadOutcome) -> (step: ReaderStep)
    ensures
        step == step_after(outcome),
{
    match outcome {
        ReadOutcome::Read(n) => if n == 0 {
            ReaderStep::Stop
        } else {
            ReaderStep::Forward(n)
        },
        ReadOutcome::Interrupted => ReaderStep::Retry,
        ReadOutcome::WouldBlock => ReaderStep::Retry,
        ReadOutcome::Failed(_) => ReaderStep::Stop,
    }
}

/// What a job record holds.
pub struct JobView {
    pub command: Seq<char>,
    /// The process id, if the process was started.
    pub child_id: Option<u32>,
    /// The window size last negotiated with the pseudo-terminal.
    pub dimensions: Option<Dimensions>,
    /// All output received so far.
    pub output: Seq<u8>,
    pub status: JobStatus,
    /// Whether the reading task may still deliver output.
    pub stream_open: bool,
}

impl JobView {
    /// The record of a job whose process was just started.
    pub open spec fn spawned(command: Seq<char>, child_id: u32) -> JobView {
        JobView {
            command,
            child_id: Some(child_id),
            dimensions: None,
            output: Seq::empty(),
            status: JobStatus::Running,
            stream_open: true,
        }
    }

    /// The record of a job whose process could not be started.
    pub open spec fn failed(command: Seq<char>, errno: i32) -> JobView {
        JobView {
            command,
            child_id: None,
            dimensions: None,
            output: Seq::empty(),
            status: JobStatus::Failed(errno),
            stream_open: false,
        }
    }

    /// Whether the pseudo-terminal has to be told when the window is to
    /// have size `dimensions`: exactly if that differs from the size
    /// last negotiated.
    pub open spec fn needs_resize(self, dimensions: Dimensions) -> bool {
        self.dimensions != Some(dimensions)
    }

    /// The record after `dimensions` was negotiated.
    pub open spec fn set_dimensions(self, dimensions: Dimensions) -> JobView {
        JobView { dimensions: Some(dimensions), ..self }
    }

    /// The record with no size negotiated.
    pub open spec fn reset_dimensions(self) -> JobView {
        JobView { dimensions: None, ..self }
    }

    /// The record after a chunk of output arrived.
    pub open spec fn received(self, chunk: Seq<u8>) -> JobView {
        JobView { output: self.output + chunk, ..self }
    }

    /// The record after the reading task ended.
    pub open spec fn stream_closed(self) -> JobView {
        JobView { stream_open: false, ..self }
    }

    /// The record after the process was seen to end. Only a running job
    /// can end.
    pub open spec fn exited(self, code: Option<i32>) -> JobView {
        if self.status == JobStatus::Running {
            JobView { status: JobStatus::Exited(code), ..self }
        } else {
            self
        }
    }

    /// The record after `event`.
    pub open spec fn apply(self, event: JobEvent) -> JobView {
        match event {
            JobEvent::Output(chunk) => self.received(chunk@),
            JobEvent::StreamClosed => self.stream_closed(),
            JobEvent::Exited(code) => self.exited(code),
        }
    }
}

/// One command running, or once run, on its own pseudo-terminal.
pub struct Job {
    command: String,
    child_id: Option<u32>,
    dimensions: Option<Dimensions>,
    output: Vec<u8>,
    status: JobStatus,
    stream_open: bool,
}

impl View for Job {
    type V = JobView;

    closed spec fn view(&self) -> JobView {
        JobView {
            command: self.command@,
            child_id: self.child_id,
            dimensions: self.dimensions,
            output: self.output@,
            status: self.status,
            stream_open: self.stream_open,
        }
    }
}

impl Job {
    /// The record of a job whose process was just started as `child_id`.
    pub fn spawned(command: String, child_id: u32) -> (job: Job)
        ensures
            job@ == JobView::spawned(command@, child_id),
    {
        Job {
            command,
            child_id: Some(child_id),
            dimensions: None,
            output: Vec::new(),
            status: JobStatus::Running,
            stream_open: true,
        }
    }

    /// The record of a job whose process could not be started.
    pub fn failed(command: String, errno: i32) -> (job: Job)
        ensures
            job@ == JobView::failed(command@, errno),
    {
        Job {
            command,
            child_id: None,
            dimensions: None,
            output: Vec::new(),
            status: JobStatus::Failed(errno),
            stream_open: false,
        }
    }

    /// Negotiates the window size. Returns whether the pseudo-terminal
    /// has to be notified: `true` exactly if `dimensions` differs from
    /// the size last negotiated, which it then replaces. Asking for the
    /// same size again changes nothing.
    pub fn set_dimensions(&mut self, dimensions: Dimensions) -> (notify: bool)
        ensures
            notify == old(self)@.needs_resize(dimensions),
            final(self)@ == old(self)@.set_dimensions(dimensions),
    {
        match self.dimensions {
            Some(current) => if current.rows == dimensions.rows && current.columns
                == dimensions.columns {
                // same dimensions as previous; no need to notify pty
                return false;
            },
            None => {},
        }
        self.dimensions = Some(dimensions);
        true
    }

    /// Forgets the negotiated size, so that the next size set is
    /// announced to the pseudo-terminal whatever it is.
    pub fn reset_dimensions(&mut self)
        ensures
            final(self)@ == old(self)@.reset_dimensions(),
    {
        self.dimensions = None;
    }

    /// Takes in a report from the job's background tasks.
    pub fn apply(&mut self, event: JobEvent)
        ensures
            final(self)@ == old(self)@.apply(event),
    {
        match event {
            JobEvent::Output(chunk) => {
                let mut chunk = chunk;
                self.output.append(&mut chunk);
            },
            JobEvent::StreamClosed => {
                self.stream_open = false;
            },
            JobEvent::Exited(code) => {
                match self.status {
                    JobStatus::Running => {
                        self.status = JobStatus::Exited(code);
                    },
                    _ => {},
                }
            },
        }
    }

    /// The command line the job was started with.
    pub fn command(&self) -> (command: &str)
        ensures
            command@ == self@.command,
    {
        self.command.as_str()
    }

    /// The process id, if the process was started.
    pub fn child_id(&self) -> (child_id: Option<u32>)
        ensures
            child_id == self@.child_id,
    {
        self.child_id
    }

    /// The window size last negotiated.
    pub fn dimensions(&self) -> (dimensions: Option<Dimensions>)
        ensures
            dimensions == self@.dimensions,
    {
        self.dimensions
    }

    /// All output received so far.
    pub fn output(&self) -> (output: &[u8])
        ensures
            output@ == self@.output,
    {
        self.output.as_slice()
    }

    /// What is known about the process.
    pub fn status(&self) -> (status: JobStatus)
        ensures
            status == self@.status,
    {
        self.status
    }

    /// Whether the reading task may still deliver output.
    pub fn is_stream_open(&self) -> (open: bool)
        ensures
            open == self@.stream_open,
    {
        self.stream_open
    }
}

/// Negotiating the same size twice in a row announces it at most once:
/// the second request needs no notification and changes nothing, and the
/// first needs one exactly if the size was new.
pub proof fn lemma_set_dimensions_idempotent(job: JobView, dimensions: Dimensions)
    ensures
        !job.set_dimensions(dimensions).needs_resize(dimensions),
        job.set_dimensions(dimensions).set_dimensions(dimensions) == job.set_dimensions(
            dimensions,
        ),
        job.needs_resize(dimensions) <==> job.dimensions != Some(dimensions),
        job.dimensions is None ==> job.needs_resize(dimensions),
        !job.needs_resize(dimensions) ==> job.set_dimensions(dimensions) == job,
{
}

/// Once the negotiated size is forgotten, any size set next is
/// announced.
pub proof fn lemma_reset_forces_resize(job: JobView, dimensions: Dimensions)
    ensures
        job.reset_dimensions().needs_resize(dimensions),
{
}

/// No report takes away output that has arrived, and only output adds
/// to it.
pub proof fn lemma_output_only_grows(job: JobView, event: JobEvent)
    ensures
        job.output.is_prefix_of(job.apply(event).output),
        !(event is Output) ==> job.apply(event).output == job.output,
        event matches JobEvent::Output(chunk) ==> job.apply(event).output == job.output
            + chunk@,
{
}

/// A reading task never goes on after the end of the stream or a fatal
/// error, and never stops for an error that passes.
pub proof fn lemma_reader_stops_only_for_good(outcome: ReadOutcome)
    ensures
        step_after(outcome) is Stop <==> (outcome is Failed || outcome == ReadOutcome::Read(0)),
        step_after(outcome) is Retry <==> (outcome is Interrupted || outcome is WouldBlock),
        step_after(outcome) matches ReaderStep::Forward(n) ==> n > 0 && outcome
            == ReadOutcome::Read(n),
{
}

} // verus!
