use jobshell::application::{Action, App, JobPane, SpawnOutcome, PROMPT_HEIGHT};
use jobshell::event::{Event, KeyCode, KeyEvent, KeyEventKind};
use jobshell::geometry::{Position, Rect};
use jobshell::job::{
    reader_step, Dimensions, Job, JobEvent, JobStatus, ReadOutcome, ReaderStep, CHUNK_SIZE,
};
use jobshell::prompt::Prompt;
use jobshell::text_area::{Row, TextArea};

fn new_app() -> App {
    App::new(Prompt::new(TextArea::builder().prefix("$ ".to_string()).max_lines(3).build()))
}

fn press_code(code: KeyCode) -> Event {
    Event::Key(KeyEvent::press(code))
}

fn type_command(app: &mut App, text: &str) {
    for c in text.chars() {
        assert_eq!(app.handle_event(press_code(KeyCode::Char(c))), Action::Continue);
    }
}

#[test]
fn spawned_job_starts_running_and_empty() {
    let job = Job::spawned("top".to_string(), 4711);
    assert_eq!(job.command(), "top");
    assert_eq!(job.child_id(), Some(4711));
    assert_eq!(job.dimensions(), None);
    assert!(job.output().is_empty());
    assert_eq!(job.status(), JobStatus::Running);
    assert!(job.is_stream_open());
}

#[test]
fn failed_job_is_marked_failed() {
    let job = Job::failed("no-such-command".to_string(), 2);
    assert_eq!(job.command(), "no-such-command");
    assert_eq!(job.child_id(), None);
    assert_eq!(job.status(), JobStatus::Failed(2));
    assert!(!job.is_stream_open());
    assert!(job.output().is_empty());
}

#[test]
fn same_dimensions_twice_notify_once() {
    let mut job = Job::spawned("vi".to_string(), 1);
    let size = Dimensions { rows: 24, columns: 80 };
    assert!(job.set_dimensions(size));
    assert!(!job.set_dimensions(size));
    assert_eq!(job.dimensions(), Some(size));
}

#[test]
fn changed_dimensions_notify_again() {
    let mut job = Job::spawned("vi".to_string(), 1);
    assert!(job.set_dimensions(Dimensions { rows: 24, columns: 80 }));
    assert!(job.set_dimensions(Dimensions { rows: 24, columns: 81 }));
    assert!(job.set_dimensions(Dimensions { rows: 25, columns: 81 }));
    assert!(!job.set_dimensions(Dimensions { rows: 25, columns: 81 }));
    assert!(job.set_dimensions(Dimensions { rows: 24, columns: 80 }));
    assert_eq!(job.dimensions(), Some(Dimensions { rows: 24, columns: 80 }));
}

#[test]
fn reset_dimensions_forces_the_next_notification() {
    let mut job = Job::spawned("vi".to_string(), 1);
    let size = Dimensions { rows: 24, columns: 80 };
    assert!(job.set_dimensions(size));
    job.reset_dimensions();
    assert_eq!(job.dimensions(), None);
    assert!(job.set_dimensions(size));
    assert!(!job.set_dimensions(size));
}

#[test]
fn dimensions_of_area_take_height_and_width() {
    let area = Rect { x: 1, y: 2, width: 78, height: 22 };
    assert_eq!(Dimensions::of_area(&area), Dimensions { rows: 22, columns: 78 });
}

#[test]
fn output_accumulates_in_order() {
    let mut job = Job::spawned("cat".to_string(), 9);
    job.apply(JobEvent::Output(b"hel".to_vec()));
    job.apply(JobEvent::Output(Vec::new()));
    job.apply(JobEvent::Output(b"lo\n".to_vec()));
    assert_eq!(job.output(), b"hello\n");
    assert_eq!(job.status(), JobStatus::Running);
    assert!(job.is_stream_open());
}

#[test]
fn stream_closed_keeps_the_output() {
    let mut job = Job::spawned("cat".to_string(), 9);
    job.apply(JobEvent::Output(b"abc".to_vec()));
    job.apply(JobEvent::StreamClosed);
    assert!(!job.is_stream_open());
    assert_eq!(job.output(), b"abc");
    assert_eq!(job.status(), JobStatus::Running);
}

#[test]
fn exit_is_recorded_with_its_status() {
    let mut job = Job::spawned("false".to_string(), 9);
    job.apply(JobEvent::Exited(Some(1)));
    assert_eq!(job.status(), JobStatus::Exited(Some(1)));
    let mut killed = Job::spawned("sleep".to_string(), 10);
    killed.apply(JobEvent::Exited(None));
    assert_eq!(killed.status(), JobStatus::Exited(None));
}

#[test]
fn only_a_running_job_exits() {
    let mut job = Job::spawned("true".to_string(), 9);
    job.apply(JobEvent::Exited(Some(0)));
    job.apply(JobEvent::Exited(Some(3)));
    assert_eq!(job.status(), JobStatus::Exited(Some(0)));
    let mut failed = Job::failed("nope".to_string(), 13);
    failed.apply(JobEvent::Exited(Some(0)));
    assert_eq!(failed.status(), JobStatus::Failed(13));
}

#[test]
fn reader_forwards_data() {
    assert_eq!(reader_step(ReadOutcome::Read(1)), ReaderStep::Forward(1));
    assert_eq!(reader_step(ReadOutcome::Read(CHUNK_SIZE)), ReaderStep::Forward(255));
}

#[test]
fn reader_stops_at_end_of_stream() {
    assert_eq!(reader_step(ReadOutcome::Read(0)), ReaderStep::Stop);
}

#[test]
fn reader_retries_passing_errors() {
    assert_eq!(reader_step(ReadOutcome::Interrupted), ReaderStep::Retry);
    assert_eq!(reader_step(ReadOutcome::WouldBlock), ReaderStep::Retry);
}

#[test]
fn reader_stops_on_fatal_errors() {
    assert_eq!(reader_step(ReadOutcome::Failed(5)), ReaderStep::Stop);
    assert_eq!(reader_step(ReadOutcome::Failed(9)), ReaderStep::Stop);
}

#[test]
fn new_app_has_no_jobs() {
    let app = new_app();
    assert!(app.jobs().is_empty());
    assert_eq!(app.prompt().lines(), &["".to_string()]);
}

#[test]
fn typing_is_consumed_by_the_prompt() {
    let mut app = new_app();
    type_command(&mut app, "ls -l");
    assert_eq!(app.prompt().lines(), &["ls -l".to_string()]);
    assert!(app.jobs().is_empty());
}

#[test]
fn submit_asks_for_a_job_and_clears_the_prompt() {
    let mut app = App::new(Prompt::new(
        TextArea::builder()
            .lines(vec!["echo hi".to_string(), "date".to_string()])
            .max_lines(3)
            .cursor_row(1)
            .cursor_col(4)
            .build(),
    ));
    let action = app.handle_event(press_code(KeyCode::Enter));
    assert_eq!(action, Action::StartJob("echo hi\ndate".to_string()));
    assert_eq!(app.prompt().lines(), &["".to_string()]);
    assert_eq!(app.prompt().cursor(), (0, 0));
    assert!(app.jobs().is_empty());
}

#[test]
fn typed_command_is_submitted_and_started() {
    let mut app = new_app();
    type_command(&mut app, "date");
    let action = app.handle_event(press_code(KeyCode::Enter));
    assert_eq!(action, Action::StartJob("date".to_string()));
    let index = match action {
        Action::StartJob(command) => app.start_job(command, SpawnOutcome::Spawned(77)),
        _ => unreachable!(),
    };
    assert_eq!(index, 0);
    assert_eq!(app.jobs().len(), 1);
    assert_eq!(app.jobs()[0].command(), "date");
    assert_eq!(app.jobs()[0].child_id(), Some(77));
    assert_eq!(app.jobs()[0].status(), JobStatus::Running);
    assert_eq!(app.prompt().text(), "");
}

#[test]
fn escape_press_quits() {
    let mut app = new_app();
    type_command(&mut app, "x");
    assert_eq!(app.handle_event(press_code(KeyCode::Esc)), Action::Quit);
    assert_eq!(app.prompt().lines(), &["x".to_string()]);
}

#[test]
fn escape_release_and_repeat_do_not_quit() {
    let mut app = new_app();
    for kind in [KeyEventKind::Release, KeyEventKind::Repeat] {
        let event = Event::Key(KeyEvent { code: KeyCode::Esc, modifiers: 0, kind });
        assert_eq!(app.handle_event(event), Action::Continue);
    }
}

#[test]
fn other_bubbled_events_continue() {
    let mut app = new_app();
    assert_eq!(app.handle_event(press_code(KeyCode::Tab)), Action::Continue);
    assert_eq!(app.handle_event(Event::Resize { columns: 80, rows: 24 }), Action::Continue);
    assert_eq!(app.handle_event(Event::Mouse { column: 1, row: 1 }), Action::Continue);
    let release = Event::Key(KeyEvent {
        code: KeyCode::Enter,
        modifiers: 0,
        kind: KeyEventKind::Release,
    });
    assert_eq!(app.handle_event(release), Action::Continue);
    assert_eq!(app.prompt().lines(), &["".to_string()]);
}

#[test]
fn spawn_failure_still_gets_an_entry() {
    let mut app = new_app();
    assert_eq!(app.start_job("ok".to_string(), SpawnOutcome::Spawned(5)), 0);
    assert_eq!(app.start_job("missing".to_string(), SpawnOutcome::Failed(2)), 1);
    assert_eq!(app.jobs().len(), 2);
    assert_eq!(app.jobs()[1].command(), "missing");
    assert_eq!(app.jobs()[1].status(), JobStatus::Failed(2));
    assert_eq!(app.jobs()[0].status(), JobStatus::Running);
}

#[test]
fn fatal_read_error_on_one_job_leaves_the_other_alone() {
    let mut app = new_app();
    let a = app.start_job("a".to_string(), SpawnOutcome::Spawned(1));
    let b = app.start_job("b".to_string(), SpawnOutcome::Spawned(2));
    assert!(app.deliver(a, JobEvent::Output(b"from a".to_vec())));
    assert!(app.deliver(b, JobEvent::Output(b"from b".to_vec())));
    assert_eq!(reader_step(ReadOutcome::Failed(5)), ReaderStep::Stop);
    assert!(app.deliver(a, JobEvent::StreamClosed));
    assert!(!app.jobs()[a].is_stream_open());
    assert_eq!(app.jobs()[b].output(), b"from b");
    assert_eq!(app.jobs()[b].status(), JobStatus::Running);
    assert!(app.jobs()[b].is_stream_open());
    assert!(app.deliver(b, JobEvent::Output(b", more".to_vec())));
    assert_eq!(app.jobs()[b].output(), b"from b, more");
    assert_eq!(app.jobs()[a].output(), b"from a");
}

#[test]
fn three_jobs_accumulate_independently() {
    let mut app = new_app();
    for (i, name) in ["one", "two", "three"].iter().enumerate() {
        assert_eq!(app.start_job(name.to_string(), SpawnOutcome::Spawned(100 + i as u32)), i);
    }
    for job in app.jobs() {
        assert_eq!(job.status(), JobStatus::Running);
        assert!(job.is_stream_open());
    }
    for round in 0..3u8 {
        for index in [2usize, 0, 1] {
            assert!(app.deliver(index, JobEvent::Output(vec![b'a' + index as u8, b'0' + round])));
        }
    }
    assert_eq!(app.jobs()[0].output(), b"a0a1a2");
    assert_eq!(app.jobs()[1].output(), b"b0b1b2");
    assert_eq!(app.jobs()[2].output(), b"c0c1c2");
    for job in app.jobs() {
        assert_eq!(job.status(), JobStatus::Running);
    }
}

#[test]
fn reports_for_different_jobs_commute() {
    let mut first = new_app();
    let mut second = new_app();
    for app in [&mut first, &mut second] {
        app.start_job("x".to_string(), SpawnOutcome::Spawned(1));
        app.start_job("y".to_string(), SpawnOutcome::Spawned(2));
    }
    first.deliver(0, JobEvent::Output(b"x".to_vec()));
    first.deliver(1, JobEvent::Exited(Some(0)));
    second.deliver(1, JobEvent::Exited(Some(0)));
    second.deliver(0, JobEvent::Output(b"x".to_vec()));
    for index in 0..2 {
        assert_eq!(first.jobs()[index].output(), second.jobs()[index].output());
        assert_eq!(first.jobs()[index].status(), second.jobs()[index].status());
    }
}

#[test]
fn finished_jobs_stay_in_the_list() {
    let mut app = new_app();
    app.start_job("true".to_string(), SpawnOutcome::Spawned(1));
    app.deliver(0, JobEvent::Exited(Some(0)));
    app.deliver(0, JobEvent::StreamClosed);
    assert_eq!(app.jobs().len(), 1);
    assert_eq!(app.jobs()[0].status(), JobStatus::Exited(Some(0)));
}

#[test]
fn report_for_a_missing_job_is_dropped() {
    let mut app = new_app();
    assert!(!app.deliver(0, JobEvent::StreamClosed));
    app.start_job("x".to_string(), SpawnOutcome::Spawned(1));
    assert!(!app.deliver(1, JobEvent::Output(b"lost".to_vec())));
    assert!(app.jobs()[0].output().is_empty());
    assert!(app.jobs()[0].is_stream_open());
}

#[test]
fn app_negotiates_dimensions_per_job() {
    let mut app = new_app();
    app.start_job("x".to_string(), SpawnOutcome::Spawned(1));
    app.start_job("y".to_string(), SpawnOutcome::Spawned(2));
    let size = Dimensions { rows: 24, columns: 80 };
    assert!(app.set_dimensions(0, size));
    assert!(!app.set_dimensions(0, size));
    assert!(app.set_dimensions(1, size));
    assert!(!app.set_dimensions(2, size));
    assert_eq!(app.jobs()[0].dimensions(), Some(size));
    assert_eq!(app.jobs()[1].dimensions(), Some(size));
}

#[test]
fn input_events_do_not_touch_the_jobs() {
    let mut app = new_app();
    app.start_job("x".to_string(), SpawnOutcome::Spawned(1));
    app.deliver(0, JobEvent::Output(b"out".to_vec()));
    type_command(&mut app, "next");
    app.handle_event(press_code(KeyCode::Enter));
    assert_eq!(app.jobs().len(), 1);
    assert_eq!(app.jobs()[0].output(), b"out");
    assert_eq!(app.jobs()[0].status(), JobStatus::Running);
}

#[test]
fn arrange_gives_each_job_the_inside_of_its_pane() {
    let mut app = new_app();
    app.start_job("x".to_string(), SpawnOutcome::Spawned(1));
    app.start_job("y".to_string(), SpawnOutcome::Failed(2));
    let areas = vec![
        Rect { x: 0, y: 0, width: 80, height: 10 },
        Rect { x: 0, y: 10, width: 80, height: 11 },
    ];
    let screen = app.arrange(&areas, Rect { x: 0, y: 21, width: 80, height: 3 });
    assert_eq!(
        screen.panes,
        vec![
            JobPane {
                area: areas[0],
                inner: Rect { x: 1, y: 1, width: 78, height: 8 },
                dimensions: Dimensions { rows: 8, columns: 78 },
                resize: true,
            },
            JobPane {
                area: areas[1],
                inner: Rect { x: 1, y: 11, width: 78, height: 9 },
                dimensions: Dimensions { rows: 9, columns: 78 },
                resize: true,
            },
        ]
    );
    assert_eq!(app.jobs()[0].dimensions(), Some(Dimensions { rows: 8, columns: 78 }));
    assert_eq!(app.jobs()[1].dimensions(), Some(Dimensions { rows: 9, columns: 78 }));
    assert_eq!(screen.input_area, Rect { x: 0, y: 21, width: 80, height: 3 });
    assert_eq!(screen.input_inner, Rect { x: 1, y: 22, width: 78, height: 1 });
}

#[test]
fn arrange_asks_for_a_resize_only_when_the_size_changes() {
    let mut app = new_app();
    app.start_job("x".to_string(), SpawnOutcome::Spawned(1));
    let input = Rect { x: 0, y: 21, width: 80, height: 3 };
    let first = app.arrange(&vec![Rect { x: 0, y: 0, width: 80, height: 21 }], input);
    assert!(first.panes[0].resize);
    let second = app.arrange(&vec![Rect { x: 0, y: 0, width: 80, height: 21 }], input);
    assert!(!second.panes[0].resize);
    let moved = app.arrange(&vec![Rect { x: 5, y: 5, width: 80, height: 21 }], input);
    assert!(!moved.panes[0].resize);
    let grown = app.arrange(&vec![Rect { x: 0, y: 0, width: 81, height: 21 }], input);
    assert!(grown.panes[0].resize);
    assert_eq!(grown.panes[0].dimensions, Dimensions { rows: 19, columns: 79 });
}

#[test]
fn arrange_shows_the_prompt_inside_its_border() {
    let mut app = new_app();
    type_command(&mut app, "ls");
    let screen = app.arrange(&Vec::new(), Rect { x: 0, y: 21, width: 80, height: 3 });
    assert!(screen.panes.is_empty());
    assert_eq!(
        screen.prompt_rows,
        vec![Row { area: Rect { x: 1, y: 22, width: 78, height: 1 }, text: "$ ls".to_string() }]
    );
    assert_eq!(screen.cursor, Some(Position { x: 5, y: 22 }));
}

#[test]
fn arrange_leaves_jobs_without_a_region_alone() {
    let mut app = new_app();
    app.start_job("x".to_string(), SpawnOutcome::Spawned(1));
    app.start_job("y".to_string(), SpawnOutcome::Spawned(2));
    let screen = app.arrange(
        &vec![Rect { x: 0, y: 0, width: 10, height: 10 }],
        Rect { x: 0, y: 10, width: 10, height: 3 },
    );
    assert_eq!(screen.panes.len(), 1);
    assert_eq!(app.jobs()[0].dimensions(), Some(Dimensions { rows: 8, columns: 8 }));
    assert_eq!(app.jobs()[1].dimensions(), None);
}

#[test]
fn arrange_ignores_regions_without_a_job() {
    let mut app = new_app();
    app.start_job("x".to_string(), SpawnOutcome::Spawned(1));
    let screen = app.arrange(
        &vec![Rect { x: 0, y: 0, width: 10, height: 4 }, Rect { x: 0, y: 4, width: 10, height: 4 }],
        Rect { x: 0, y: 8, width: 10, height: 3 },
    );
    assert_eq!(screen.panes.len(), 1);
    assert_eq!(screen.panes[0].dimensions, Dimensions { rows: 2, columns: 8 });
}

#[test]
fn pane_too_small_for_its_border_leaves_nothing() {
    let mut app = new_app();
    app.start_job("x".to_string(), SpawnOutcome::Spawned(1));
    let screen = app.arrange(
        &vec![Rect { x: 3, y: 4, width: 1, height: 0 }],
        Rect { x: 0, y: 65535, width: 2, height: 3 },
    );
    assert_eq!(screen.panes[0].inner, Rect { x: 4, y: 4, width: 0, height: 0 });
    assert_eq!(screen.panes[0].dimensions, Dimensions { rows: 0, columns: 0 });
    assert_eq!(screen.input_inner, Rect { x: 1, y: 65535, width: 0, height: 1 });
    assert!(screen.prompt_rows.is_empty());
}

#[test]
fn draw_splits_the_screen_between_jobs_and_prompt() {
    let mut app = new_app();
    app.start_job("x".to_string(), SpawnOutcome::Spawned(1));
    app.start_job("y".to_string(), SpawnOutcome::Spawned(2));
    type_command(&mut app, "ab");
    let screen = app.draw(Rect { x: 0, y: 0, width: 80, height: 24 });
    assert_eq!(screen.input_area, Rect { x: 0, y: 21, width: 80, height: PROMPT_HEIGHT });
    assert_eq!(screen.input_inner, Rect { x: 1, y: 22, width: 78, height: 1 });
    assert_eq!(screen.panes.len(), 2);
    let mut next_row = 0;
    for (index, pane) in screen.panes.iter().enumerate() {
        assert_eq!(pane.area.x, 0);
        assert_eq!(pane.area.width, 80);
        assert_eq!(pane.area.y, next_row);
        assert!(pane.area.height == 10 || pane.area.height == 11);
        next_row += pane.area.height;
        assert_eq!(pane.inner.width, 78);
        assert_eq!(pane.inner.height, pane.area.height - 2);
        assert_eq!(pane.dimensions, Dimensions { rows: pane.inner.height, columns: 78 });
        assert!(pane.resize);
        assert_eq!(app.jobs()[index].dimensions(), Some(pane.dimensions));
    }
    assert_eq!(next_row, 21);
    assert_eq!(
        screen.prompt_rows,
        vec![Row { area: Rect { x: 1, y: 22, width: 78, height: 1 }, text: "$ ab".to_string() }]
    );
    assert_eq!(screen.cursor, Some(Position { x: 5, y: 22 }));
}

#[test]
fn drawing_twice_notifies_each_job_once() {
    let mut app = new_app();
    app.start_job("x".to_string(), SpawnOutcome::Spawned(1));
    let area = Rect { x: 0, y: 0, width: 80, height: 24 };
    let first = app.draw(area);
    assert_eq!(first.panes.len(), 1);
    assert!(first.panes[0].resize);
    assert_eq!(first.panes[0].area, Rect { x: 0, y: 0, width: 80, height: 21 });
    assert_eq!(first.panes[0].dimensions, Dimensions { rows: 19, columns: 78 });
    let second = app.draw(area);
    assert!(!second.panes[0].resize);
    let third = app.draw(Rect { x: 0, y: 0, width: 100, height: 30 });
    assert!(third.panes[0].resize);
    assert_eq!(third.panes[0].dimensions, Dimensions { rows: 25, columns: 98 });
}

#[test]
fn draw_without_jobs_shows_only_the_prompt() {
    let mut app = new_app();
    let screen = app.draw(Rect { x: 0, y: 0, width: 40, height: 10 });
    assert!(screen.panes.is_empty());
    assert_eq!(screen.input_area, Rect { x: 0, y: 7, width: 40, height: 3 });
    assert_eq!(screen.cursor, Some(Position { x: 3, y: 8 }));
}
