//! The state of the application and the decisions of its main loop.
//!
//! The loop itself belongs to the caller: it lays out the screen with
//! [`App::draw`], waits for one input event, and hands the event to
//! [`App::handle_event`], which says what to do next. Whatever the
//! background tasks of the jobs report goes to [`App::deliver`].
//!
//! The loop waits nowhere but for the next input event. A job that is
//! slow or silent therefore never holds up the prompt; on the other hand
//! output that arrives while the loop waits is shown only once the next
//! input event has come.
//!
//! Jobs are never taken off the list. A job that has ended, or that could
//! not be started, keeps its place and shows its final status.

use vstd::prelude::*;

use crate::event::{Event, KeyCode, KeyEventKind};
use crate::geometry::{Position, Rect};
use crate::handler::{HandleEvent, HandleEventResult};
use crate::job::{Dimensions, Job, JobEvent, JobStatus, JobView};
use crate::layout::{block_inner, split_vertical, Constraint};
use crate::prompt::{submits, Prompt, PromptEvent};
use crate::text_area::{rows_view, Row};
use crate::text_model::{RowView, TextAreaView};

verus! {

/// What the main loop has to do after an event was dispatched.
#[derive(Debug, PartialEq, Eq)]
pub enum Action {
    /// Nothing beyond drawing again.
    Continue,
    /// Start this command as a new job.
    StartJob(String),
    /// Leave the loop.
    Quit,
}

/// How the attempt to start a command's process ended.
#[derive(Clone, Copy, Debug, PartialEq, Eq, Structural)]
pub enum SpawnOutcome {
    /// The process runs, with this process id.
    Spawned(u32),
    /// The process could not be started; carries the error number.
    Failed(i32),
}

/// How many rows at the bottom of the screen belong to the prompt, its
/// border included.
pub const PROMPT_HEIGHT: u16 = 3;

/// The part of the screen that shows one job.
#[derive(Clone, Copy, Debug, PartialEq, Eq, Structural)]
pub struct JobPane {
    /// The whole pane, border included.
    pub area: Rect,
    /// What the border leaves: the job's terminal window.
    pub inner: Rect,
    /// The size of that window.
    pub dimensions: Dimensions,
    /// Whether the job's pseudo-terminal has to be told about the size.
    pub resize: bool,
}

/// Where everything goes on the screen, and what the prompt shows.
pub struct Screen {
    /// One pane per job, in the order of the jobs.
    pub panes: Vec<JobPane>,
    /// The prompt's region, border included.
    pub input_area: Rect,
    /// What the border leaves of the prompt's region.
    pub input_inner: Rect,
    /// The rows of the prompt, top to bottom.
    pub prompt_rows: Vec<Row>,
    /// Where the terminal cursor belongs, if it can be shown.
    pub cursor: Option<Position>,
}

/// What a [`Screen`] holds.
pub struct ScreenView {
    pub panes: Seq<JobPane>,
    pub input_area: Rect,
    pub input_inner: Rect,
    pub prompt_rows: Seq<RowView>,
    pub cursor: Option<Position>,
}

impl View for Screen {
    type V = ScreenView;

    open spec fn view(&self) -> ScreenView {
        ScreenView {
            panes: self.panes@,
            input_area: self.input_area,
            input_inner: self.input_inner,
            prompt_rows: rows_view(self.prompt_rows@),
            cursor: self.cursor,
        }
    }
}

/// How the screen is divided from top to bottom: the prompt gets
/// [`PROMPT_HEIGHT`] rows and the jobs get the rest.
pub open spec fn screen_parts() -> Seq<Constraint> {
    seq![Constraint::Fill(1), Constraint::Length(PROMPT_HEIGHT)]
}

/// How the jobs' part of the screen is divided among `count` jobs: every
/// job gets an equal share.
pub open spec fn job_parts(count: nat) -> Seq<Constraint> {
    Seq::new(count, |i: int| Constraint::Fill(1))
}

/// The constraints that divide the screen between jobs and prompt.
pub fn screen_constraints() -> (constraints: Vec<Constraint>)
    ensures
        constraints@ == screen_parts(),
{
    let mut constraints: Vec<Constraint> = Vec::new();
    constraints.push(Constraint::Fill(1));
    constraints.push(Constraint::Length(PROMPT_HEIGHT));
    assert(constraints@ =~= screen_parts());
    constraints
}

/// The constraints that divide the jobs' part of the screen among `count`
/// jobs.
pub fn job_constraints(count: usize) -> (constraints: Vec<Constraint>)
    ensures
        constraints@ == job_parts(count as nat),
{
    let mut constraints: Vec<Constraint> = Vec::new();
    while constraints.len() < count
        invariant
            constraints.len() <= count,
            forall|i: int| 0 <= i < constraints.len() ==> constraints[i] == Constraint::Fill(1),
        decreases count - constraints.len(),
    {
        constraints.push(Constraint::Fill(1));
    }
    assert(constraints@ =~= job_parts(count as nat));
    constraints
}

/// The window size of a job whose pane is `area`: what is left inside
/// the pane's border.
pub open spec fn window_in(area: Rect) -> Dimensions {
    Dimensions { rows: area.inside_border().height, columns: area.inside_border().width }
}

/// The pane of `job` when it is shown in `area`.
pub open spec fn pane_of(job: JobView, area: Rect) -> JobPane {
    JobPane {
        area,
        inner: area.inside_border(),
        dimensions: window_in(area),
        resize: job.needs_resize(window_in(area)),
    }
}

/// The regions of `panes`, in order.
pub open spec fn areas_of(panes: Seq<JobPane>) -> Seq<Rect> {
    Seq::new(panes.len(), |i: int| panes[i].area)
}

/// What the application holds: the prompt and the jobs in the order in
/// which they were started.
pub struct AppView {
    pub prompt: TextAreaView,
    pub jobs: Seq<JobView>,
}

/// Whether `event` asks to leave the application: Escape pressed.
pub open spec fn quits(event: Event) -> bool {
    event matches Event::Key(key) && key.kind == KeyEventKind::Press && key.code == KeyCode::Esc
}

/// The record with which a job enters the list.
pub open spec fn new_job(command: Seq<char>, spawn: SpawnOutcome) -> JobView {
    match spawn {
        SpawnOutcome::Spawned(child_id) => JobView::spawned(command, child_id),
        SpawnOutcome::Failed(errno) => JobView::failed(command, errno),
    }
}

impl AppView {
    /// The state after `event` was dispatched: a submit clears the
    /// prompt, every other event does to the prompt what the text buffer
    /// makes of it. The jobs stay as they are.
    pub open spec fn after(self, event: Event) -> AppView {
        if submits(event) {
            AppView { prompt: self.prompt.clear(), ..self }
        } else {
            AppView { prompt: self.prompt.after(event), ..self }
        }
    }

    /// The state after the jobs were given the regions `areas`, the
    /// first job the first region and so on: each job that got a region
    /// has negotiated the window size that fits it.
    pub open spec fn arranged(self, areas: Seq<Rect>) -> AppView {
        AppView {
            jobs: Seq::new(
                self.jobs.len(),
                |i: int|
                    if i < areas.len() {
                        self.jobs[i].set_dimensions(window_in(areas[i]))
                    } else {
                        self.jobs[i]
                    },
            ),
            ..self
        }
    }

    /// How many panes there are when the jobs are given `areas`.
    pub open spec fn pane_count(self, areas: Seq<Rect>) -> nat {
        if self.jobs.len() <= areas.len() {
            self.jobs.len()
        } else {
            areas.len()
        }
    }

    /// The screen when the jobs are given the regions `areas` and the
    /// prompt the region `input_area`.
    pub open spec fn screen(self, areas: Seq<Rect>, input_area: Rect) -> ScreenView {
        ScreenView {
            panes: Seq::new(self.pane_count(areas), |i: int| pane_of(self.jobs[i], areas[i])),
            input_area,
            input_inner: input_area.inside_border(),
            prompt_rows: self.prompt.display_rows(input_area.inside_border()),
            cursor: self.prompt.cursor_position(input_area.inside_border()),
        }
    }

    /// The state with a new job at the end of the list.
    pub open spec fn start_job(self, command: Seq<char>, spawn: SpawnOutcome) -> AppView {
        AppView { jobs: self.jobs.push(new_job(command, spawn)), ..self }
    }

    /// The state after job `index` took in `event`. Every other job, and
    /// the prompt, stay as they are; without such a job nothing changes.
    pub open spec fn deliver(self, index: nat, event: JobEvent) -> AppView {
        if index < self.jobs.len() {
            AppView {
                jobs: self.jobs.update(index as int, self.jobs[index as int].apply(event)),
                ..self
            }
        } else {
            self
        }
    }

    /// The state after job `index` negotiated `dimensions`.
    pub open spec fn set_dimensions(self, index: nat, dimensions: Dimensions) -> AppView {
        if index < self.jobs.len() {
            AppView {
                jobs: self.jobs.update(
                    index as int,
                    self.jobs[index as int].set_dimensions(dimensions),
                ),
                ..self
            }
        } else {
            self
        }
    }
}

/// The views of the jobs in `jobs`.
pub open spec fn records_of(jobs: Seq<Job>) -> Seq<JobView> {
    Seq::new(jobs.len(), |i: int| jobs[i]@)
}

/// The prompt and the list of jobs.
pub struct App {
    prompt: Prompt,
    jobs: Vec<Job>,
}

impl View for App {
    type V = AppView;

    closed spec fn view(&self) -> AppView {
        AppView { prompt: self.prompt@, jobs: records_of(self.jobs@) }
    }
}

impl App {
    /// An application with `prompt` and no jobs.
    pub fn new(prompt: Prompt) -> (app: App)
        ensures
            app@ == (AppView { prompt: prompt@, jobs: Seq::empty() }),
    {
        let app = App { prompt, jobs: Vec::new() };
        assert(app@.jobs =~= Seq::empty());
        app
    }

    /// The prompt.
    pub fn prompt(&self) -> (prompt: &Prompt)
        ensures
            prompt@ == self@.prompt,
    {
        &self.prompt
    }

    /// The jobs in the order in which they were started.
    pub fn jobs(&self) -> (jobs: &[Job])
        ensures
            records_of(jobs@) == self@.jobs,
    {
        self.jobs.as_slice()
    }

    /// Dispatches one input event and says what the main loop does next.
    ///
    /// The event goes to the prompt first. A submit clears the prompt
    /// and asks for the submitted text to be started as a job. Of what
    /// the prompt hands back unconsumed, Escape pressed asks to quit.
    /// Nothing else asks for anything.
    pub fn handle_event(&mut self, event: Event) -> (action: Action)
        ensures
            final(self)@ == old(self)@.after(event),
            submits(event) ==> {
                &&& action matches Action::StartJob(command)
                &&& command@ == old(self)@.prompt.text()
            },
            quits(event) ==> action == Action::Quit,
            !submits(event) && !quits(event) ==> action == Action::Continue,
            old(self)@.prompt.wf() ==> final(self)@.prompt.wf(),
    {
        match self.prompt.handle_event(event) {
            HandleEventResult::Handled => Action::Continue,
            HandleEventResult::Bubbled(PromptEvent::Enter(command)) => {
                self.prompt.clear();
                Action::StartJob(command)
            },
            HandleEventResult::Bubbled(PromptEvent::Bubble(event)) => {
                match event {
                    Event::Key(key) => match (key.kind, key.code) {
                        (KeyEventKind::Press, KeyCode::Esc) => Action::Quit,
                        _ => Action::Continue,
                    },
                    _ => Action::Continue,
                }
            },
        }
    }

    /// Lays out the screen inside `area` and negotiates each job's
    /// window size from the pane it gets.
    ///
    /// The layout engine is asked to split `area` from top to bottom by
    /// [`screen_constraints`], and the upper part among the jobs by
    /// [`job_constraints`]. Where exactly the parts lie is up to the
    /// engine; whatever it gives, every job gets a pane as wide as
    /// `area`, and the result is what [`App::arrange`] makes of those
    /// parts.
    pub fn draw(&mut self, area: Rect) -> (screen: Screen)
        ensures
            screen@.panes.len() == old(self)@.jobs.len(),
            final(self)@ == old(self)@.arranged(areas_of(screen@.panes)),
            screen@ == old(self)@.screen(areas_of(screen@.panes), screen@.input_area),
            screen@.input_area.x == area.x,
            screen@.input_area.width == area.width,
            forall|i: int|
                0 <= i < screen@.panes.len() ==> (#[trigger] screen@.panes[i]).area.x == area.x
                    && screen@.panes[i].area.width == area.width,
    {
        let parts = split_vertical(area, &screen_constraints());
        let job_areas = split_vertical(parts[0], &job_constraints(self.jobs.len()));
        let screen = self.arrange(&job_areas, parts[1]);
        assert(areas_of(screen@.panes) =~= job_areas@);
        screen
    }

    /// Gives the jobs the regions `job_areas`, the first job the first
    /// region and so on, and the prompt the region `input_area`.
    ///
    /// Each job that gets a region negotiates the window size left
    /// inside the region's border; its pane says whether the
    /// pseudo-terminal has to be told. The prompt is shown inside the
    /// border of its region.
    pub fn arrange(&mut self, job_areas: &Vec<Rect>, input_area: Rect) -> (screen: Screen)
        ensures
            final(self)@ == old(self)@.arranged(job_areas@),
            screen@ == old(self)@.screen(job_areas@, input_area),
    {
        let count: usize = if self.jobs.len() <= job_areas.len() {
            self.jobs.len()
        } else {
            job_areas.len()
        };
        let mut panes: Vec<JobPane> = Vec::new();
        let mut i: usize = 0;
        while i < count
            invariant
                i <= count,
                count == old(self)@.pane_count(job_areas@),
                self.jobs.len() == old(self).jobs.len(),
                self.prompt == old(self).prompt,
                panes.len() == i,
                forall|k: int|
                    0 <= k < i ==> #[trigger] panes[k] == pane_of(
                        old(self).jobs[k]@,
                        job_areas[k],
                    ),
                forall|k: int|
                    0 <= k < i ==> (#[trigger] self.jobs[k])@ == old(self).jobs[k]@.set_dimensions(
                        window_in(job_areas[k]),
                    ),
                forall|k: int| i <= k < self.jobs.len() ==> #[trigger] self.jobs[k] == old(
                    self,
                ).jobs[k],
            decreases count - i,
        {
            let area = job_areas[i];
            let inner = block_inner(area);
            let dimensions = Dimensions::of_area(&inner);
            let resize = self.jobs[i].set_dimensions(dimensions);
            panes.push(JobPane { area, inner, dimensions, resize });
            i = i + 1;
        }
        let input_inner = block_inner(input_area);
        let screen = Screen {
            panes,
            input_area,
            input_inner,
            prompt_rows: self.prompt.render(&input_inner),
            cursor: self.prompt.get_rendered_cursor_position(&input_inner),
        };
        assert(self@.jobs =~= old(self)@.arranged(job_areas@).jobs);
        assert(screen@.panes =~= old(self)@.screen(job_areas@, input_area).panes);
        screen
    }

    /// Appends the record of a new job for `command` and returns its
    /// index. A command whose process could not be started still gets
    /// its entry, marked failed.
    pub fn start_job(&mut self, command: String, spawn: SpawnOutcome) -> (index: usize)
        ensures
            index == old(self)@.jobs.len(),
            final(self)@ == old(self)@.start_job(command@, spawn),
    {
        let job = match spawn {
            SpawnOutcome::Spawned(child_id) => Job::spawned(command, child_id),
            SpawnOutcome::Failed(errno) => Job::failed(command, errno),
        };
        let index: usize = self.jobs.len();
        self.jobs.push(job);
        assert(self@.jobs =~= old(self)@.start_job(command@, spawn).jobs);
        index
    }

    /// Hands a report from the background tasks of job `index` to that
    /// job. Returns `false`, changing nothing, if there is no such job.
    pub fn deliver(&mut self, index: usize, event: JobEvent) -> (delivered: bool)
        ensures
            delivered == (index < old(self)@.jobs.len()),
            final(self)@ == old(self)@.deliver(index as nat, event),
    {
        if index >= self.jobs.len() {
            return false;
        }
        self.jobs[index].apply(event);
        assert(self@.jobs =~= old(self)@.deliver(index as nat, event).jobs);
        true
    }

    /// Negotiates the window size of job `index`. Returns whether the
    /// job's pseudo-terminal has to be notified; `false`, changing
    /// nothing, if there is no such job.
    pub fn set_dimensions(&mut self, index: usize, dimensions: Dimensions) -> (notify: bool)
        ensures
            notify == (index < old(self)@.jobs.len() && old(self)@.jobs[index as int].needs_resize(
                dimensions,
            )),
            final(self)@ == old(self)@.set_dimensions(index as nat, dimensions),
    {
        if index >= self.jobs.len() {
            return false;
        }
        let notify = self.jobs[index].set_dimensions(dimensions);
        assert(self@.jobs =~= old(self)@.set_dimensions(index as nat, dimensions).jobs);
        notify
    }
}

/// Whatever is reported about one job leaves every other job, the order
/// and number of the jobs, and the prompt as they were.
pub proof fn lemma_jobs_are_isolated(s: AppView, index: nat, event: JobEvent, other: int)
    requires
        0 <= other < s.jobs.len(),
        other != index,
    ensures
        s.deliver(index, event).jobs[other] == s.jobs[other],
        s.deliver(index, event).jobs.len() == s.jobs.len(),
        s.deliver(index, event).prompt == s.prompt,
{
}

/// Reports about two different jobs can be taken in in either order: the
/// outcome is the same.
pub proof fn lemma_reports_of_different_jobs_commute(
    s: AppView,
    a: nat,
    first: JobEvent,
    b: nat,
    second: JobEvent,
)
    requires
        a != b,
    ensures
        s.deliver(a, first).deliver(b, second) == s.deliver(b, second).deliver(a, first),
{
    assert(s.deliver(a, first).deliver(b, second).jobs =~= s.deliver(b, second).deliver(
        a,
        first,
    ).jobs);
}

/// Starting a job leaves the jobs before it untouched, and the new job
/// comes last: running with an open stream and no output if its process
/// was started, failed with a closed stream if not.
pub proof fn lemma_start_job_appends(s: AppView, command: Seq<char>, spawn: SpawnOutcome)
    ensures
        s.start_job(command, spawn).jobs.len() == s.jobs.len() + 1,
        s.start_job(command, spawn).jobs.last() == new_job(command, spawn),
        forall|i: int|
            0 <= i < s.jobs.len() ==> (#[trigger] s.start_job(command, spawn).jobs[i])
                == s.jobs[i],
        spawn is Spawned ==> new_job(command, spawn).status == JobStatus::Running && new_job(
            command,
            spawn,
        ).stream_open,
        spawn matches SpawnOutcome::Failed(errno) ==> new_job(command, spawn).status
            == JobStatus::Failed(errno) && !new_job(command, spawn).stream_open,
{
}

/// No job ever leaves the list: input events, reports and the layout
/// keep the number of jobs, and starting a job adds one.
pub proof fn lemma_jobs_are_never_removed(
    s: AppView,
    event: Event,
    index: nat,
    report: JobEvent,
    areas: Seq<Rect>,
    dimensions: Dimensions,
    command: Seq<char>,
    spawn: SpawnOutcome,
)
    ensures
        s.after(event).jobs.len() == s.jobs.len(),
        s.deliver(index, report).jobs.len() == s.jobs.len(),
        s.arranged(areas).jobs.len() == s.jobs.len(),
        s.set_dimensions(index, dimensions).jobs.len() == s.jobs.len(),
        s.start_job(command, spawn).jobs.len() == s.jobs.len() + 1,
{
}

/// Laying out the same regions twice in a row asks no job for a second
/// resize and changes nothing the second time.
pub proof fn lemma_arrange_twice(s: AppView, areas: Seq<Rect>, input_area: Rect, i: int)
    requires
        0 <= i < s.pane_count(areas),
    ensures
        s.arranged(areas).arranged(areas) == s.arranged(areas),
        !s.arranged(areas).screen(areas, input_area).panes[i].resize,
        s.screen(areas, input_area).panes[i].resize == s.jobs[i].needs_resize(
            window_in(areas[i]),
        ),
{
    assert(s.arranged(areas).arranged(areas).jobs =~= s.arranged(areas).jobs);
}

/// Dispatching an input event never touches the jobs, and no report
/// about a job touches the prompt.
pub proof fn lemma_input_and_jobs_are_separate(
    s: AppView,
    event: Event,
    index: nat,
    report: JobEvent,
)
    ensures
        s.after(event).jobs == s.jobs,
        s.deliver(index, report).prompt == s.prompt,
        s.after(event).deliver(index, report) == s.deliver(index, report).after(event),
{
}

} // verus!
