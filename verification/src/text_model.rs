//! The mathematical model of the multi-line text buffer.
//!
//! A buffer is a sequence of lines, each a sequence of characters, with a
//! cursor given as a row and a character column. Every editing operation
//! is a total function on this model: applied to a state whose cursor does
//! not point into the text it changes nothing.

use vstd::prelude::*;

use crate::event::{Event, KeyCode, KeyEvent};
use crate::geometry::{Position, Rect, MAX_COORDINATE};
use crate::handler::HandleEventResult;

verus! {

/// What a text buffer holds.
pub struct TextAreaView {
    /// The text, one entry per line.
    pub lines: Seq<Seq<char>>,
    /// The most lines a line break may grow the buffer to, if line breaks
    /// are allowed at all.
    pub max_lines: Option<nat>,
    /// A label shown in front of the first line.
    pub prefix: Option<Seq<char>>,
    pub cursor_row: nat,
    /// The cursor's column, counted in characters.
    pub cursor_col: nat,
    /// Index of the first line that is displayed.
    pub scroll_offset: nat,
}

/// One row of text and where on the screen it belongs.
pub struct RowView {
    pub area: Rect,
    pub text: Seq<char>,
}

/// The lines joined into one text, with a line feed between neighbours.
pub open spec fn join_lines(lines: Seq<Seq<char>>) -> Seq<char>
    decreases lines.len(),
{
    if lines.len() == 0 {
        Seq::empty()
    } else if lines.len() == 1 {
        lines[0]
    } else {
        join_lines(lines.drop_last()) + seq!['\n'] + lines.last()
    }
}

impl TextAreaView {
    /// One empty line, the cursor at the origin, no prefix and no line cap.
    pub open spec fn initial() -> TextAreaView {
        TextAreaView {
            lines: seq![Seq::<char>::empty()],
            max_lines: None,
            prefix: None,
            cursor_row: 0,
            cursor_col: 0,
            scroll_offset: 0,
        }
    }

    /// There is at least one line and the cursor points into the text: at
    /// an existing row, and at a column from 0 up to and including the
    /// length of that row.
    pub open spec fn wf(self) -> bool {
        &&& self.lines.len() >= 1
        &&& self.cursor_row < self.lines.len()
        &&& self.cursor_col <= self.lines[self.cursor_row as int].len()
    }

    /// The line the cursor is on.
    pub open spec fn current_line(self) -> Seq<char> {
        self.lines[self.cursor_row as int]
    }

    /// Width of the prefix in characters, 0 without a prefix.
    pub open spec fn prefix_len(self) -> nat {
        match self.prefix {
            Some(prefix) => prefix.len(),
            None => 0,
        }
    }

    /// How far the text of `row` is shifted right on screen: the prefix
    /// width on the first row, nothing elsewhere.
    pub open spec fn indent(self, row: nat) -> nat {
        if row == 0 {
            self.prefix_len()
        } else {
            0
        }
    }

    /// The cursor's column as displayed, prefix included.
    pub open spec fn visual_col(self) -> nat {
        self.cursor_col + self.indent(self.cursor_row)
    }

    /// The stored column on `row` that is displayed closest to the
    /// cursor's current visual column.
    pub open spec fn column_on(self, row: nat) -> nat {
        let wanted = self.visual_col() - self.indent(row);
        let len = self.lines[row as int].len();
        if wanted <= 0 {
            0
        } else if wanted >= len {
            len
        } else {
            wanted as nat
        }
    }

    /// The state with `c` inserted at the cursor and the cursor moved
    /// behind it.
    pub open spec fn insert_char(self, c: char) -> TextAreaView {
        if self.wf() {
            TextAreaView {
                lines: self.lines.update(
                    self.cursor_row as int,
                    self.current_line().insert(self.cursor_col as int, c),
                ),
                cursor_col: self.cursor_col + 1,
                ..self
            }
        } else {
            self
        }
    }

    /// The state after deleting backwards from the cursor: the character
    /// before the cursor goes; at the start of a later line that line is
    /// joined onto the end of the one above, with the cursor where the two
    /// meet; at the very start of the text nothing happens.
    pub open spec fn backspace(self) -> TextAreaView {
        if !self.wf() {
            self
        } else if self.cursor_col > 0 {
            TextAreaView {
                lines: self.lines.update(
                    self.cursor_row as int,
                    self.current_line().remove(self.cursor_col - 1),
                ),
                cursor_col: (self.cursor_col - 1) as nat,
                ..self
            }
        } else if self.cursor_row > 0 {
            let above = self.lines[self.cursor_row - 1];
            TextAreaView {
                lines: self.lines.remove(self.cursor_row as int).update(
                    self.cursor_row - 1,
                    above + self.current_line(),
                ),
                cursor_row: (self.cursor_row - 1) as nat,
                cursor_col: above.len(),
                ..self
            }
        } else {
            self
        }
    }

    /// The cursor one column left, stopping at column 0.
    pub open spec fn move_left(self) -> TextAreaView {
        if self.wf() && self.cursor_col > 0 {
            TextAreaView { cursor_col: (self.cursor_col - 1) as nat, ..self }
        } else {
            self
        }
    }

    /// The cursor one column right, stopping just behind the last
    /// character of the line.
    pub open spec fn move_right(self) -> TextAreaView {
        if self.wf() && self.cursor_col < self.current_line().len() {
            TextAreaView { cursor_col: self.cursor_col + 1, ..self }
        } else {
            self
        }
    }

    /// The cursor one row up at the same visual column, as far as the row
    /// above reaches; unchanged on the first row.
    pub open spec fn move_up(self) -> TextAreaView {
        if self.wf() && self.cursor_row > 0 {
            let row = (self.cursor_row - 1) as nat;
            TextAreaView { cursor_row: row, cursor_col: self.column_on(row), ..self }
        } else {
            self
        }
    }

    /// The cursor one row down at the same visual column, as far as the
    /// row below reaches; unchanged on the last row.
    pub open spec fn move_down(self) -> TextAreaView {
        if self.wf() && self.cursor_row + 1 < self.lines.len() {
            let row = self.cursor_row + 1;
            TextAreaView { cursor_row: row, cursor_col: self.column_on(row), ..self }
        } else {
            self
        }
    }

    /// Whether a line break is allowed: the cursor points into the text, a
    /// line cap is set and the buffer is still below it.
    pub open spec fn can_break(self) -> bool {
        &&& self.wf()
        &&& self.max_lines matches Some(max_lines)
        &&& self.lines.len() < max_lines
    }

    /// The state with the current line split at the cursor: what was right
    /// of the cursor becomes a new line directly below, and the cursor
    /// moves to its start. Unchanged where no line break is allowed.
    pub open spec fn break_line(self) -> TextAreaView {
        if self.can_break() {
            let line = self.current_line();
            let left = line.subrange(0, self.cursor_col as int);
            let right = line.subrange(self.cursor_col as int, line.len() as int);
            TextAreaView {
                lines: self.lines.update(self.cursor_row as int, left).insert(
                    self.cursor_row as int + 1,
                    right,
                ),
                cursor_row: self.cursor_row + 1,
                cursor_col: 0,
                ..self
            }
        } else {
            self
        }
    }

    /// One empty line with the cursor at the origin and nothing scrolled;
    /// prefix and line cap stay.
    pub open spec fn clear(self) -> TextAreaView {
        TextAreaView {
            lines: seq![Seq::<char>::empty()],
            cursor_row: 0,
            cursor_col: 0,
            scroll_offset: 0,
            ..self
        }
    }

    /// The whole text: all lines joined by line feeds.
    pub open spec fn text(self) -> Seq<char> {
        join_lines(self.lines)
    }

    /// Whether the buffer consumes `key`: keys that edit or move are
    /// consumed whenever the cursor points into the text, Enter only where
    /// a line break is allowed, and every other key is left to the parent.
    pub open spec fn consumes(self, key: KeyEvent) -> bool {
        match key.code {
            KeyCode::Char(_) | KeyCode::Left | KeyCode::Right | KeyCode::Up | KeyCode::Down
            | KeyCode::Backspace => self.wf(),
            KeyCode::Enter => self.can_break(),
            _ => false,
        }
    }

    /// The state after the key takes effect.
    pub open spec fn apply_key(self, key: KeyEvent) -> TextAreaView {
        match key.code {
            KeyCode::Char(c) => self.insert_char(c),
            KeyCode::Left => self.move_left(),
            KeyCode::Right => self.move_right(),
            KeyCode::Up => self.move_up(),
            KeyCode::Down => self.move_down(),
            KeyCode::Backspace => self.backspace(),
            KeyCode::Enter => self.break_line(),
            _ => self,
        }
    }

    /// The state after the buffer was offered `event`. Key releases and
    /// events that are no key events change nothing.
    pub open spec fn after(self, event: Event) -> TextAreaView {
        match event.active_key() {
            Some(key) => self.apply_key(key),
            None => self,
        }
    }

    /// What the buffer answers when offered `event`: consumed, or the very
    /// same event handed back.
    pub open spec fn outcome(self, event: Event) -> HandleEventResult<Event> {
        match event.active_key() {
            Some(key) => if self.consumes(key) {
                HandleEventResult::Handled
            } else {
                HandleEventResult::Bubbled(event)
            },
            None => HandleEventResult::Bubbled(event),
        }
    }

    /// How many lines are displayed in `area`: one for each row of the
    /// area, as far as there are lines from the scroll offset on.
    pub open spec fn visible_rows(self, area: Rect) -> nat {
        if self.scroll_offset >= self.lines.len() {
            0
        } else if self.lines.len() - self.scroll_offset <= area.row_count() {
            (self.lines.len() - self.scroll_offset) as nat
        } else {
            area.row_count()
        }
    }

    /// The text of display row `i`: the line `i` rows below the scroll
    /// offset, behind the prefix on the first displayed row.
    pub open spec fn display_text(self, i: int) -> Seq<char> {
        let line = self.lines[self.scroll_offset + i];
        match self.prefix {
            Some(prefix) => if i == 0 {
                prefix + line
            } else {
                line
            },
            None => line,
        }
    }

    /// The rows displayed in `area`, top to bottom, each with the row of
    /// the area it belongs to.
    pub open spec fn display_rows(self, area: Rect) -> Seq<RowView> {
        Seq::new(
            self.visible_rows(area),
            |i: int| RowView { area: area.row(i), text: self.display_text(i) },
        )
    }

    /// Screen column of the cursor in a region whose left edge is at `x`.
    pub open spec fn screen_x(self, x: u16) -> int {
        x + self.visual_col()
    }

    /// Screen row of the cursor in a region whose top edge is at `y`.
    pub open spec fn screen_y(self, y: u16) -> int {
        y + self.cursor_row - self.scroll_offset
    }

    /// Where the terminal cursor belongs when the buffer is drawn into
    /// `rect`, if the cursor's line is not scrolled away above the region
    /// and the cell can be addressed at all.
    pub open spec fn cursor_position(self, rect: Rect) -> Option<Position> {
        if self.cursor_row >= self.scroll_offset && self.screen_x(rect.x) <= MAX_COORDINATE
            && self.screen_y(rect.y) <= MAX_COORDINATE {
            Some(Position { x: self.screen_x(rect.x) as u16, y: self.screen_y(rect.y) as u16 })
        } else {
            None
        }
    }
}

/// Anything that can be done to a text buffer once it is built.
pub enum Operation {
    /// Offer an input event.
    Offer(Event),
    InsertChar(char),
    Backspace,
    MoveLeft,
    MoveRight,
    MoveUp,
    MoveDown,
    BreakLine,
    Clear,
}

/// The state after `operation`.
pub open spec fn perform(s: TextAreaView, operation: Operation) -> TextAreaView {
    match operation {
        Operation::Offer(event) => s.after(event),
        Operation::InsertChar(c) => s.insert_char(c),
        Operation::Backspace => s.backspace(),
        Operation::MoveLeft => s.move_left(),
        Operation::MoveRight => s.move_right(),
        Operation::MoveUp => s.move_up(),
        Operation::MoveDown => s.move_down(),
        Operation::BreakLine => s.break_line(),
        Operation::Clear => s.clear(),
    }
}

/// The state after each of `operations` in turn.
pub open spec fn perform_all(start: TextAreaView, operations: Seq<Operation>) -> TextAreaView
    decreases operations.len(),
{
    if operations.len() == 0 {
        start
    } else {
        perform(perform_all(start, operations.drop_last()), operations.last())
    }
}

/// The buffer a builder starts from has one line and its cursor points
/// into the text, and so has every cleared buffer.
pub proof fn lemma_fresh_is_wf(s: TextAreaView)
    ensures
        TextAreaView::initial().wf(),
        s.clear().wf(),
{
}

/// No editing operation takes the cursor out of the text.
pub proof fn lemma_operations_keep_wf(s: TextAreaView, c: char)
    requires
        s.wf(),
    ensures
        s.insert_char(c).wf(),
        s.backspace().wf(),
        s.move_left().wf(),
        s.move_right().wf(),
        s.move_up().wf(),
        s.move_down().wf(),
        s.break_line().wf(),
{
}

/// No event takes the cursor out of the text: if there is at least one
/// line and the cursor points into the text before an event is offered,
/// the same holds afterwards.
pub proof fn lemma_event_keeps_wf(s: TextAreaView, event: Event)
    requires
        s.wf(),
    ensures
        s.after(event).wf(),
{
}

/// Every state that can be reached from one with at least one line and
/// the cursor in the text has at least one line and the cursor in the
/// text, whatever is done to the buffer on the way.
pub proof fn lemma_reachable_is_wf(start: TextAreaView, operations: Seq<Operation>)
    requires
        start.wf(),
    ensures
        perform_all(start, operations).wf(),
    decreases operations.len(),
{
    if operations.len() > 0 {
        lemma_reachable_is_wf(start, operations.drop_last());
    }
}

/// An event that is handed back has changed nothing.
pub proof fn lemma_bubbled_is_untouched(s: TextAreaView, event: Event)
    requires
        s.outcome(event) is Bubbled,
    ensures
        s.after(event) == s,
        s.outcome(event) == HandleEventResult::Bubbled(event),
{
}

/// Inserting a character and deleting backwards right after leads back
/// to the state before the insertion, text and cursor alike.
pub proof fn lemma_insert_then_backspace(s: TextAreaView, c: char)
    requires
        s.wf(),
    ensures
        s.insert_char(c).backspace() == s,
{
    let line = s.current_line();
    let col = s.cursor_col as int;
    let t = s.insert_char(c);
    assert(t.current_line() == line.insert(col, c));
    assert(line.insert(col, c).remove(col) =~= line);
    assert(t.backspace().lines =~= s.lines);
}

/// Without a line cap, or with the buffer at its cap, Enter is handed
/// back and the buffer, the number of its lines included, stays as it
/// is.
pub proof fn lemma_enter_at_capacity(s: TextAreaView, event: Event)
    requires
        event.active_key() matches Some(key) && key.code == KeyCode::Enter,
        s.max_lines matches Some(max_lines) ==> s.lines.len() >= max_lines,
    ensures
        s.outcome(event) == HandleEventResult::Bubbled(event),
        s.after(event) == s,
        s.after(event).lines.len() == s.lines.len(),
{
}

/// A line break that is allowed adds exactly one line and is consumed.
pub proof fn lemma_enter_below_capacity(s: TextAreaView, event: Event)
    requires
        event.active_key() matches Some(key) && key.code == KeyCode::Enter,
        s.can_break(),
    ensures
        s.outcome(event) == HandleEventResult::<Event>::Handled,
        s.after(event).lines.len() == s.lines.len() + 1,
        s.max_lines matches Some(max_lines) && s.after(event).lines.len() <= max_lines,
{
}

/// The cursor stops at both ends of its line: moving right from just
/// behind the last character and moving left from column 0 change
/// nothing, and no horizontal move leaves the line.
pub proof fn lemma_cursor_stays_on_line(s: TextAreaView)
    requires
        s.wf(),
    ensures
        s.cursor_col == s.current_line().len() ==> s.move_right() == s,
        s.cursor_col == 0 ==> s.move_left() == s,
        s.move_right().cursor_col <= s.current_line().len(),
        s.move_left().cursor_col <= s.cursor_col,
        s.move_right().cursor_col == s.cursor_col || s.move_right().cursor_col == s.cursor_col
            + 1,
{
}

/// Moving up keeps the cursor's visual column wherever the row above is
/// long enough to show it; otherwise the cursor goes to the nearer end
/// of that row.
pub proof fn lemma_move_up_keeps_visual_col(s: TextAreaView)
    requires
        s.wf(),
        s.cursor_row > 0,
    ensures
        ({
            let t = s.move_up();
            let row = (s.cursor_row - 1) as nat;
            let len = s.lines[row as int].len();
            &&& t.cursor_row == row
            &&& t.lines == s.lines
            &&& s.indent(row) <= s.visual_col() <= s.indent(row) + len ==> t.visual_col()
                == s.visual_col()
            &&& s.visual_col() < s.indent(row) ==> t.cursor_col == 0
            &&& s.visual_col() > s.indent(row) + len ==> t.cursor_col == len
        }),
{
}

/// Moving down keeps the cursor's visual column wherever the row below
/// is long enough to show it; otherwise the cursor goes to the end of
/// that row.
pub proof fn lemma_move_down_keeps_visual_col(s: TextAreaView)
    requires
        s.wf(),
        s.cursor_row + 1 < s.lines.len(),
    ensures
        ({
            let t = s.move_down();
            let row = s.cursor_row + 1;
            let len = s.lines[row as int].len();
            &&& t.cursor_row == row
            &&& t.lines == s.lines
            &&& s.visual_col() <= len ==> t.visual_col() == s.visual_col()
            &&& s.visual_col() > len ==> t.cursor_col == len
        }),
{
}

} // verus!
