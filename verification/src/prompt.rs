//! The command prompt: a text buffer that turns Enter into a submit.

use vstd::prelude::*;
use vstd::std_specs::convert::FromSpecImpl;

use crate::event::{Event, KeyCode};
use crate::geometry::{Position, Rect};
use crate::handler::{HandleEvent, HandleEventResult};
use crate::text_area::{rows_view, text_of, Row, TextArea};
use crate::text_model::TextAreaView;

verus! {

/// A prompt around one [`TextArea`].
pub struct Prompt {
    text_area: TextArea,
}

/// What a prompt hands to its owner.
#[derive(Debug, PartialEq, Eq)]
pub enum PromptEvent {
    /// The user pressed the enter key in the prompt; carries the whole
    /// text of the buffer, its lines joined by line feeds.
    Enter(String),
    /// An event that the text buffer did not consume.
    Bubble(Event),
}

/// Whether `event` submits the prompt: Enter pressed or held.
pub open spec fn submits(event: Event) -> bool {
    event.active_key() matches Some(key) && key.code == KeyCode::Enter
}

/// What the prompt passes on for an answer of its text buffer.
pub open spec fn pass_through(outcome: HandleEventResult<Event>) -> HandleEventResult<
    PromptEvent,
> {
    match outcome {
        HandleEventResult::Handled => HandleEventResult::Handled,
        HandleEventResult::Bubbled(event) => HandleEventResult::Bubbled(
            PromptEvent::Bubble(event),
        ),
    }
}

impl View for Prompt {
    type V = TextAreaView;

    closed spec fn view(&self) -> TextAreaView {
        self.text_area@
    }
}

impl From<TextArea> for Prompt {
    fn from(value: TextArea) -> (prompt: Prompt)
        ensures
            prompt@ == value@,
    {
        Prompt { text_area: value }
    }
}

impl FromSpecImpl<TextArea> for Prompt {
    open spec fn obeys_from_spec() -> bool {
        true
    }

    closed spec fn from_spec(value: TextArea) -> Prompt {
        Prompt { text_area: value }
    }
}

impl Prompt {
    /// A prompt that edits `text_area`.
    pub fn new(text_area: TextArea) -> (prompt: Prompt)
        ensures
            prompt@ == text_area@,
    {
        Prompt { text_area }
    }

    /// The text buffer inside the prompt.
    pub fn text_area(&self) -> (text_area: &TextArea)
        ensures
            text_area@ == self@,
    {
        &self.text_area
    }

    /// The line the cursor is on.
    pub fn current_line(&self) -> (line: &str)
        requires
            self@.cursor_row < self@.lines.len(),
        ensures
            line@ == self@.current_line(),
    {
        self.text_area.current_line()
    }

    /// All lines, top to bottom.
    pub fn lines(&self) -> (lines: &[String])
        ensures
            text_of(lines@) == self@.lines,
    {
        self.text_area.lines()
    }

    /// The cursor as row and character column.
    pub fn cursor(&self) -> (cursor: (usize, usize))
        ensures
            cursor.0 == self@.cursor_row,
            cursor.1 == self@.cursor_col,
    {
        self.text_area.cursor()
    }

    /// The whole text: all lines joined by line feeds.
    pub fn text(&self) -> (text: String)
        ensures
            text@ == self@.text(),
    {
        self.text_area.text()
    }

    /// Splits the current line at the cursor where the text buffer allows
    /// a line break; see [`TextArea::enter`].
    pub fn break_line(&mut self) -> (split: bool)
        ensures
            split == old(self)@.can_break(),
            final(self)@ == old(self)@.break_line(),
    {
        self.text_area.enter()
    }

    /// Resets the prompt to one empty line with the cursor at the
    /// origin, ready for the next command.
    pub fn clear(&mut self)
        ensures
            final(self)@ == old(self)@.clear(),
    {
        self.text_area.clear()
    }

    /// The rows to display in `area`; see [`TextArea::render`].
    pub fn render(&self, area: &Rect) -> (rows: Vec<Row>)
        ensures
            rows_view(rows@) == self@.display_rows(*area),
    {
        self.text_area.render(area)
    }

    /// Where the terminal cursor belongs when the prompt is drawn into
    /// `rect`; see [`TextArea::get_rendered_cursor_position`].
    pub fn get_rendered_cursor_position(&self, rect: &Rect) -> (pos: Option<Position>)
        ensures
            pos == self@.cursor_position(*rect),
    {
        self.text_area.get_rendered_cursor_position(rect)
    }
}

impl HandleEvent for Prompt {
    type Event = PromptEvent;

    /// Offers `event` to the prompt.
    ///
    /// Enter, pressed or held, always submits: the prompt hands back
    /// [`PromptEvent::Enter`] with the whole text and leaves the buffer
    /// as it is. Every other event goes to the text buffer, and what the
    /// buffer does not consume is handed back inside
    /// [`PromptEvent::Bubble`].
    fn handle_event(&mut self, event: Event) -> (res: HandleEventResult<PromptEvent>)
        ensures
            submits(event) ==> {
                &&& final(self)@ == old(self)@
                &&& res matches HandleEventResult::Bubbled(PromptEvent::Enter(text))
                &&& text@ == old(self)@.text()
            },
            !submits(event) ==> {
                &&& final(self)@ == old(self)@.after(event)
                &&& res == pass_through(old(self)@.outcome(event))
            },
            old(self)@.wf() ==> final(self)@.wf(),
    {
        match event.pressed_key() {
            Some(key) => match key.code {
                KeyCode::Enter => {
                    return HandleEventResult::Bubbled(PromptEvent::Enter(self.text_area.text()));
                },
                _ => {},
            },
            None => {},
        }
        match self.text_area.handle_event(event) {
            HandleEventResult::Handled => HandleEventResult::Handled,
            HandleEventResult::Bubbled(b) => HandleEventResult::Bubbled(PromptEvent::Bubble(b)),
        }
    }
}

} // verus!
