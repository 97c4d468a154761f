//! The multi-line text buffer editor.

use vstd::prelude::*;

use crate::event::{Event, KeyCode};
use crate::geometry::{Position, Rect, MAX_COORDINATE};
use crate::handler::{HandleEvent, HandleEventResult};
use crate::layout::rows_of;
use crate::text_model::{join_lines, RowView, TextAreaView};

verus! {

/// The characters of each string in `lines`.
pub open spec fn text_of(lines: Seq<String>) -> Seq<Seq<char>> {
    Seq::new(lines.len(), |i: int| lines[i]@)
}

/// One row of text to display and the screen region it goes to.
#[derive(Debug, PartialEq, Eq)]
pub struct Row {
    pub area: Rect,
    pub text: String,
}

impl View for Row {
    type V = RowView;

    open spec fn view(&self) -> RowView {
        RowView { area: self.area, text: self.text@ }
    }
}

/// The views of the rows in `rows`.
pub open spec fn rows_view(rows: Seq<Row>) -> Seq<RowView> {
    Seq::new(rows.len(), |i: int| rows[i]@)
}

/// Appends one character to a string.
///
/// Trusted: the body is `String::push` of the standard library, which is
/// documented to add the character at the end of the string and to leave
/// the rest as it was.
#[verifier::external_body]
fn push_char(s: &mut String, c: char)
    ensures
        final(s)@ == old(s)@.push(c),
{
    s.push(c);
}

/// A copy of `line` with `c` inserted before character `col`.
fn with_inserted(line: &str, col: usize, c: char) -> (res: String)
    requires
        col <= line@.len(),
    ensures
        res@ == line@.insert(col as int, c),
{
    let len: usize = line.unicode_len();
    let mut res = String::from_str(line.substring_char(0, col));
    push_char(&mut res, c);
    res.append(line.substring_char(col, len));
    res
}

/// A copy of `line` without character `index`.
fn with_removed(line: &str, index: usize) -> (res: String)
    requires
        index < line@.len(),
    ensures
        res@ == line@.remove(index as int),
{
    let len: usize = line.unicode_len();
    let mut res = String::from_str(line.substring_char(0, index));
    res.append(line.substring_char(index + 1, len));
    res
}

/// A multi-line text buffer with a cursor.
///
/// The cursor column counts characters, never bytes, so an edit cannot
/// split a multi-byte character.
pub struct TextArea {
    lines: Vec<String>,
    max_lines: Option<usize>,
    prefix: Option<String>,
    cursor_row: usize,
    cursor_col: usize,
    scroll_offset: usize,
}

impl View for TextArea {
    type V = TextAreaView;

    closed spec fn view(&self) -> TextAreaView {
        TextAreaView {
            lines: text_of(self.lines@),
            max_lines: match self.max_lines {
                Some(max_lines) => Some(max_lines as nat),
                None => None,
            },
            prefix: match self.prefix {
                Some(prefix) => Some(prefix@),
                None => None,
            },
            cursor_row: self.cursor_row as nat,
            cursor_col: self.cursor_col as nat,
            scroll_offset: self.scroll_offset as nat,
        }
    }
}

/// Collects the settings of a [`TextArea`] before it is built.
///
/// Settings that are never given keep their defaults: one empty line, no
/// line cap, no prefix, the cursor at the origin and nothing scrolled.
/// The builder takes the values as they are: whether the cursor points into
/// the text is up to the caller and can be asked of the built buffer with
/// [`TextArea::is_valid`].
pub struct TextAreaBuilder {
    area: TextArea,
}

impl View for TextAreaBuilder {
    type V = TextAreaView;

    closed spec fn view(&self) -> TextAreaView {
        self.area@
    }
}

impl TextAreaBuilder {
    /// Sets the text, one string per line.
    pub fn lines(self, lines: Vec<String>) -> (builder: TextAreaBuilder)
        ensures
            builder@ == (TextAreaView { lines: text_of(lines@), ..self@ }),
    {
        let mut builder = self;
        builder.area.lines = lines;
        builder
    }

    /// Allows line breaks while the buffer has fewer than `max_lines`
    /// lines.
    pub fn max_lines(self, max_lines: usize) -> (builder: TextAreaBuilder)
        ensures
            builder@ == (TextAreaView { max_lines: Some(max_lines as nat), ..self@ }),
    {
        let mut builder = self;
        builder.area.max_lines = Some(max_lines);
        builder
    }

    /// Sets the label shown in front of the first line.
    pub fn prefix(self, prefix: String) -> (builder: TextAreaBuilder)
        ensures
            builder@ == (TextAreaView { prefix: Some(prefix@), ..self@ }),
    {
        let mut builder = self;
        builder.area.prefix = Some(prefix);
        builder
    }

    /// Sets the row of the cursor.
    pub fn cursor_row(self, cursor_row: usize) -> (builder: TextAreaBuilder)
        ensures
            builder@ == (TextAreaView { cursor_row: cursor_row as nat, ..self@ }),
    {
        let mut builder = self;
        builder.area.cursor_row = cursor_row;
        builder
    }

    /// Sets the column of the cursor, counted in characters.
    pub fn cursor_col(self, cursor_col: usize) -> (builder: TextAreaBuilder)
        ensures
            builder@ == (TextAreaView { cursor_col: cursor_col as nat, ..self@ }),
    {
        let mut builder = self;
        builder.area.cursor_col = cursor_col;
        builder
    }

    /// Sets the index of the first line that is displayed.
    pub fn scroll_offset(self, scroll_offset: usize) -> (builder: TextAreaBuilder)
        ensures
            builder@ == (TextAreaView { scroll_offset: scroll_offset as nat, ..self@ }),
    {
        let mut builder = self;
        builder.area.scroll_offset = scroll_offset;
        builder
    }

    /// The buffer with the collected settings.
    pub fn build(self) -> (area: TextArea)
        ensures
            area@ == self@,
    {
        self.area
    }
}

impl TextArea {
    /// Starts a buffer from the defaults.
    pub fn builder() -> (builder: TextAreaBuilder)
        ensures
            builder@ == TextAreaView::initial(),
    {
        let mut lines: Vec<String> = Vec::new();
        lines.push(String::new());
        let area = TextArea {
            lines,
            max_lines: None,
            prefix: None,
            cursor_row: 0,
            cursor_col: 0,
            scroll_offset: 0,
        };
        assert(area@.lines =~= TextAreaView::initial().lines);
        TextAreaBuilder { area }
    }

    /// The line the cursor is on.
    pub fn current_line(&self) -> (line: &str)
        requires
            self@.cursor_row < self@.lines.len(),
        ensures
            line@ == self@.current_line(),
    {
        self.lines[self.cursor_row].as_str()
    }

    /// All lines, top to bottom.
    pub fn lines(&self) -> (lines: &[String])
        ensures
            text_of(lines@) == self@.lines,
    {
        self.lines.as_slice()
    }

    /// The cursor as row and character column.
    pub fn cursor(&self) -> (cursor: (usize, usize))
        ensures
            cursor.0 == self@.cursor_row,
            cursor.1 == self@.cursor_col,
    {
        (self.cursor_row, self.cursor_col)
    }

    /// The whole text: all lines joined by line feeds.
    pub fn text(&self) -> (text: String)
        ensures
            text@ == self@.text(),
    {
        let mut text = String::new();
        let mut i: usize = 0;
        while i < self.lines.len()
            invariant
                i <= self.lines.len(),
                text@ == join_lines(text_of(self.lines@).subrange(0, i as int)),
            decreases self.lines.len() - i,
        {
            let ghost done = text_of(self.lines@).subrange(0, i as int);
            let ghost next = text_of(self.lines@).subrange(0, i + 1);
            assert(next.drop_last() =~= done);
            assert(next.last() == self.lines[i as int]@);
            if i > 0 {
                proof {
                    reveal_strlit("\n");
                }
                text.append("\n");
                assert("\n"@ =~= seq!['\n']);
            }
            text.append(self.lines[i].as_str());
            i = i + 1;
        }
        assert(text_of(self.lines@).subrange(0, i as int) =~= text_of(self.lines@));
        text
    }

    /// Resets the buffer to one empty line with the cursor at the origin
    /// and nothing scrolled. Prefix and line cap stay.
    pub fn clear(&mut self)
        ensures
            final(self)@ == old(self)@.clear(),
    {
        let mut lines: Vec<String> = Vec::new();
        lines.push(String::new());
        self.lines = lines;
        self.cursor_row = 0;
        self.cursor_col = 0;
        self.scroll_offset = 0;
        assert(self@.lines =~= old(self)@.clear().lines);
    }

    /// The rows to display in `area`, top to bottom: one for each row of
    /// the area as far as there are lines from the scroll offset on, the
    /// first of them behind the prefix.
    pub fn render(&self, area: &Rect) -> (rows: Vec<Row>)
        ensures
            rows_view(rows@) == self@.display_rows(*area),
    {
        let mut rows: Vec<Row> = Vec::new();
        if self.scroll_offset >= self.lines.len() {
            assert(rows_view(rows@) =~= self@.display_rows(*area));
            return rows;
        }
        let areas = rows_of(*area);
        let available: usize = self.lines.len() - self.scroll_offset;
        let visible: usize = if available <= areas.len() {
            available
        } else {
            areas.len()
        };
        let mut i: usize = 0;
        while i < visible
            invariant
                i <= visible,
                visible == self@.visible_rows(*area),
                visible <= self.lines.len() - self.scroll_offset,
                visible <= areas.len(),
                areas@ == area.rows(),
                rows.len() == i,
                forall|k: int|
                    0 <= k < i ==> (#[trigger] rows[k])@ == (RowView {
                        area: area.row(k),
                        text: self@.display_text(k),
                    }),
            decreases visible - i,
        {
            let line = self.lines[self.scroll_offset + i].as_str();
            let text = match &self.prefix {
                Some(prefix) => if i == 0 {
                    let mut text = prefix.clone();
                    text.append(line);
                    text
                } else {
                    String::from_str(line)
                },
                None => String::from_str(line),
            };
            rows.push(Row { area: areas[i], text });
            i = i + 1;
        }
        assert(rows_view(rows@) =~= self@.display_rows(*area));
        rows
    }

    /// Where the terminal cursor belongs when the buffer is drawn into
    /// `rect`: the region's corner moved right by the cursor's visual
    /// column and down by the cursor's distance from the scroll offset.
    /// `None` if the cursor's line is scrolled away above the region or
    /// the cell lies beyond what a screen position can address.
    pub fn get_rendered_cursor_position(&self, rect: &Rect) -> (pos: Option<Position>)
        ensures
            pos == self@.cursor_position(*rect),
    {
        if self.cursor_row < self.scroll_offset {
            return None;
        }
        let corner = rect.as_position();
        let limit: usize = MAX_COORDINATE as usize;
        let down: usize = self.cursor_row - self.scroll_offset;
        let indent: usize = if self.cursor_row == 0 {
            self.prefix_len()
        } else {
            0
        };
        if down > limit || self.cursor_col > limit || indent > limit {
            return None;
        }
        let x: usize = corner.x as usize + self.cursor_col + indent;
        let y: usize = corner.y as usize + down;
        if x > limit || y > limit {
            return None;
        }
        Some(Position { x: x as u16, y: y as u16 })
    }

    /// Whether there is at least one line and the cursor points into the
    /// text.
    pub fn is_valid(&self) -> (valid: bool)
        ensures
            valid == self@.wf(),
    {
        if self.cursor_row >= self.lines.len() {
            return false;
        }
        self.cursor_col <= self.lines[self.cursor_row].as_str().unicode_len()
    }

    /// Inserts `c` at the cursor and moves the cursor behind it. Returns
    /// `false`, changing nothing, if the cursor does not point into the
    /// text.
    pub fn insert_char(&mut self, c: char) -> (inserted: bool)
        ensures
            inserted == old(self)@.wf(),
            final(self)@ == old(self)@.insert_char(c),
    {
        if !self.is_valid() {
            return false;
        }
        let line = with_inserted(self.lines[self.cursor_row].as_str(), self.cursor_col, c);
        // A string never holds more characters than `usize` can count.
        let len: usize = line.as_str().unicode_len();
        assert(self.cursor_col < len);
        self.lines.set(self.cursor_row, line);
        self.cursor_col = self.cursor_col + 1;
        assert(self@.lines =~= old(self)@.insert_char(c).lines);
        true
    }

    /// Deletes backwards from the cursor.
    ///
    /// Within a line the character before the cursor is removed. At the
    /// start of a line other than the first, the line is joined onto the
    /// end of the line above and the cursor is placed where the two meet.
    /// At the very start of the text, or if the cursor does not point
    /// into the text, nothing happens.
    pub fn backspace_char(&mut self)
        ensures
            final(self)@ == old(self)@.backspace(),
    {
        if !self.is_valid() {
            return ;
        }
        if self.cursor_col > 0 {
            let new_col: usize = self.cursor_col - 1;
            let line = with_removed(self.lines[self.cursor_row].as_str(), new_col);
            self.lines.set(self.cursor_row, line);
            self.cursor_col = new_col;
            assert(self@.lines =~= old(self)@.backspace().lines);
        } else if self.cursor_row > 0 {
            let row: usize = self.cursor_row - 1;
            let below = self.lines.remove(self.cursor_row);
            let boundary: usize = self.lines[row].as_str().unicode_len();
            let mut joined = self.lines[row].clone();
            joined.append(below.as_str());
            self.lines.set(row, joined);
            self.cursor_row = row;
            self.cursor_col = boundary;
            assert(self@.lines =~= old(self)@.backspace().lines);
        }
    }

    /// Width of the prefix in characters, 0 without a prefix.
    pub fn prefix_len(&self) -> (len: usize)
        ensures
            len == self@.prefix_len(),
    {
        match &self.prefix {
            Some(prefix) => prefix.as_str().unicode_len(),
            None => 0,
        }
    }

    /// Moves the cursor one column left, stopping at column 0. Does
    /// nothing if the cursor does not point into the text.
    pub fn move_left(&mut self)
        ensures
            final(self)@ == old(self)@.move_left(),
    {
        if self.is_valid() && self.cursor_col > 0 {
            self.cursor_col = self.cursor_col - 1;
        }
    }

    /// Moves the cursor one column right, stopping just behind the last
    /// character of the line. Does nothing if the cursor does not point
    /// into the text.
    pub fn move_right(&mut self)
        ensures
            final(self)@ == old(self)@.move_right(),
    {
        if self.is_valid() {
            let len: usize = self.lines[self.cursor_row].as_str().unicode_len();
            if self.cursor_col < len {
                self.cursor_col = self.cursor_col + 1;
            }
        }
    }

    /// The stored column on `row` that is displayed closest to the
    /// cursor's current visual column.
    fn column_on(&self, row: usize) -> (col: usize)
        requires
            row < self@.lines.len(),
        ensures
            col == self@.column_on(row as nat),
    {
        let len: usize = self.lines[row].as_str().unicode_len();
        let prefix_len: usize = self.prefix_len();
        let from: usize = if self.cursor_row == 0 {
            prefix_len
        } else {
            0
        };
        let to: usize = if row == 0 {
            prefix_len
        } else {
            0
        };
        if to >= from {
            // The target row is shifted at least as far: the stored
            // column shrinks by the difference.
            let shift: usize = to - from;
            if self.cursor_col <= shift {
                0
            } else if self.cursor_col - shift >= len {
                len
            } else {
                self.cursor_col - shift
            }
        } else {
            let shift: usize = from - to;
            if self.cursor_col >= len || shift >= len - self.cursor_col {
                len
            } else {
                self.cursor_col + shift
            }
        }
    }

    /// Moves the cursor one row up, keeping its visual column as far as
    /// the row above reaches. Does nothing on the first row or if the
    /// cursor does not point into the text.
    pub fn move_up(&mut self)
        ensures
            final(self)@ == old(self)@.move_up(),
    {
        if self.is_valid() && self.cursor_row > 0 {
            let row: usize = self.cursor_row - 1;
            let col: usize = self.column_on(row);
            self.cursor_row = row;
            self.cursor_col = col;
        }
    }

    /// Moves the cursor one row down, keeping its visual column as far
    /// as the row below reaches. Does nothing on the last row or if the
    /// cursor does not point into the text.
    pub fn move_down(&mut self)
        ensures
            final(self)@ == old(self)@.move_down(),
    {
        if self.is_valid() && self.cursor_row < self.lines.len() - 1 {
            let row: usize = self.cursor_row + 1;
            let col: usize = self.column_on(row);
            self.cursor_row = row;
            self.cursor_col = col;
        }
    }

    /// Whether a line break is allowed now.
    pub fn can_break(&self) -> (allowed: bool)
        ensures
            allowed == self@.can_break(),
    {
        match self.max_lines {
            Some(max_lines) => self.lines.len() < max_lines && self.is_valid(),
            None => false,
        }
    }

    /// Splits the current line at the cursor, if a line break is allowed:
    /// what was right of the cursor becomes a new line directly below and
    /// the cursor moves to its start. Returns whether the line was split;
    /// if not, nothing changed.
    pub fn enter(&mut self) -> (split: bool)
        ensures
            split == old(self)@.can_break(),
            final(self)@ == old(self)@.break_line(),
    {
        if !self.can_break() {
            return false;
        }
        let line = self.lines[self.cursor_row].as_str();
        let len: usize = line.unicode_len();
        let left = String::from_str(line.substring_char(0, self.cursor_col));
        let right = String::from_str(line.substring_char(self.cursor_col, len));
        self.lines.set(self.cursor_row, left);
        self.lines.insert(self.cursor_row + 1, right);
        self.cursor_row = self.cursor_row + 1;
        self.cursor_col = 0;
        assert(self@.lines =~= old(self)@.break_line().lines);
        true
    }
}

impl HandleEvent for TextArea {
    type Event = Event;

    /// Offers `event` to the buffer.
    ///
    /// Character keys, the arrow keys and Backspace are consumed and
    /// take effect. Enter is consumed only where a line break is
    /// allowed. Everything else, a key release included, is handed back
    /// unchanged, and so is any key while the cursor does not point into
    /// the text.
    fn handle_event(&mut self, event: Event) -> (res: HandleEventResult<Event>)
        ensures
            final(self)@ == old(self)@.after(event),
            res == old(self)@.outcome(event),
            old(self)@.wf() ==> final(self)@.wf(),
    {
        let key = match event.pressed_key() {
            Some(key) => key,
            None => {
                return HandleEventResult::Bubbled(event);
            },
        };
        let consumed = match key.code {
            KeyCode::Char(c) => self.insert_char(c),
            KeyCode::Left => {
                self.move_left();
                self.is_valid()
            },
            KeyCode::Right => {
                self.move_right();
                self.is_valid()
            },
            KeyCode::Up => {
                self.move_up();
                self.is_valid()
            },
            KeyCode::Down => {
                self.move_down();
                self.is_valid()
            },
            KeyCode::Backspace => {
                self.backspace_char();
                self.is_valid()
            },
            KeyCode::Enter => self.enter(),
            _ => false,
        };
        if consumed {
            HandleEventResult::Handled
        } else {
            HandleEventResult::Bubbled(event)
        }
    }
}

} // verus!
