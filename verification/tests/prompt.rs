use jobshell::event::{Event, KeyCode, KeyEvent, KeyEventKind};
use jobshell::geometry::{Position, Rect};
use jobshell::handler::{HandleEvent, HandleEventResult};
use jobshell::prompt::{Prompt, PromptEvent};
use jobshell::text_area::{Row, TextArea};

fn press_key(code: KeyCode) -> Event {
    Event::Key(KeyEvent::press(code))
}

fn type_into(prompt: &mut Prompt, text: &str) {
    for c in text.chars() {
        assert_eq!(prompt.handle_event(press_key(KeyCode::Char(c))), HandleEventResult::Handled);
    }
}

fn three_line_prompt() -> Prompt {
    Prompt::new(TextArea::builder().prefix("$ ".to_string()).max_lines(3).build())
}

#[test]
fn submit_carries_the_whole_text() {
    let mut prompt = Prompt::new(TextArea::builder().max_lines(3).build());
    type_into(&mut prompt, "echo hi");
    assert!(prompt.break_line());
    type_into(&mut prompt, "date");
    assert_eq!(prompt.lines(), &["echo hi".to_string(), "date".to_string()]);
    let res = prompt.handle_event(press_key(KeyCode::Enter));
    assert_eq!(res, HandleEventResult::Bubbled(PromptEvent::Enter("echo hi\ndate".to_string())));
    prompt.clear();
    assert_eq!(prompt.lines(), &["".to_string()]);
    assert_eq!(prompt.cursor(), (0, 0));
}

#[test]
fn submit_does_not_depend_on_the_cursor_line() {
    let mut prompt = Prompt::new(
        TextArea::builder()
            .lines(vec!["first".to_string(), "second".to_string(), "third".to_string()])
            .max_lines(3)
            .cursor_row(1)
            .cursor_col(2)
            .build(),
    );
    let res = prompt.handle_event(press_key(KeyCode::Enter));
    assert_eq!(
        res,
        HandleEventResult::Bubbled(PromptEvent::Enter("first\nsecond\nthird".to_string()))
    );
}

#[test]
fn submit_leaves_the_buffer_alone() {
    let mut prompt = three_line_prompt();
    type_into(&mut prompt, "ls");
    let res = prompt.handle_event(press_key(KeyCode::Enter));
    assert_eq!(res, HandleEventResult::Bubbled(PromptEvent::Enter("ls".to_string())));
    assert_eq!(prompt.lines(), &["ls".to_string()]);
    assert_eq!(prompt.cursor(), (0, 2));
}

#[test]
fn enter_submits_even_below_the_line_cap() {
    let mut prompt = three_line_prompt();
    let res = prompt.handle_event(press_key(KeyCode::Enter));
    assert_eq!(res, HandleEventResult::Bubbled(PromptEvent::Enter("".to_string())));
    assert_eq!(prompt.lines().len(), 1);
}

#[test]
fn held_enter_submits_too() {
    let mut prompt = three_line_prompt();
    type_into(&mut prompt, "w");
    let event = Event::Key(KeyEvent { code: KeyCode::Enter, modifiers: 0, kind: KeyEventKind::Repeat });
    assert_eq!(
        prompt.handle_event(event),
        HandleEventResult::Bubbled(PromptEvent::Enter("w".to_string()))
    );
}

#[test]
fn released_enter_is_passed_through() {
    let mut prompt = three_line_prompt();
    type_into(&mut prompt, "w");
    let event =
        Event::Key(KeyEvent { code: KeyCode::Enter, modifiers: 0, kind: KeyEventKind::Release });
    assert_eq!(prompt.handle_event(event), HandleEventResult::Bubbled(PromptEvent::Bubble(event)));
    assert_eq!(prompt.lines(), &["w".to_string()]);
}

#[test]
fn unhandled_keys_are_passed_through() {
    let mut prompt = three_line_prompt();
    let event = press_key(KeyCode::Esc);
    assert_eq!(prompt.handle_event(event), HandleEventResult::Bubbled(PromptEvent::Bubble(event)));
    let resize = Event::Resize { columns: 100, rows: 40 };
    assert_eq!(prompt.handle_event(resize), HandleEventResult::Bubbled(PromptEvent::Bubble(resize)));
}

#[test]
fn editing_keys_are_consumed_by_the_buffer() {
    let mut prompt = three_line_prompt();
    type_into(&mut prompt, "abc");
    assert_eq!(prompt.handle_event(press_key(KeyCode::Left)), HandleEventResult::Handled);
    assert_eq!(prompt.handle_event(press_key(KeyCode::Backspace)), HandleEventResult::Handled);
    assert_eq!(prompt.lines(), &["ac".to_string()]);
    assert_eq!(prompt.cursor(), (0, 1));
    assert_eq!(prompt.current_line(), "ac");
    assert_eq!(prompt.text(), "ac");
}

#[test]
fn break_line_stops_at_the_cap() {
    let mut prompt = three_line_prompt();
    assert!(prompt.break_line());
    assert!(prompt.break_line());
    assert!(!prompt.break_line());
    assert_eq!(prompt.lines().len(), 3);
    assert_eq!(prompt.cursor(), (2, 0));
}

#[test]
fn prompt_from_text_area_keeps_the_buffer() {
    let area = TextArea::builder().lines(vec!["pwd".to_string()]).cursor_col(3).build();
    let prompt = Prompt::from(area);
    assert_eq!(prompt.lines(), &["pwd".to_string()]);
    assert_eq!(prompt.cursor(), (0, 3));
    assert_eq!(prompt.text_area().text(), "pwd");
}

#[test]
fn prompt_renders_like_its_buffer() {
    let mut prompt = three_line_prompt();
    type_into(&mut prompt, "make");
    let area = Rect { x: 1, y: 21, width: 78, height: 3 };
    assert_eq!(
        prompt.render(&area),
        vec![Row { area: Rect { x: 1, y: 21, width: 78, height: 1 }, text: "$ make".to_string() }]
    );
    assert_eq!(prompt.get_rendered_cursor_position(&area), Some(Position { x: 7, y: 21 }));
}
