use crate::buffer::{
    push_char, deletes_something, inserts_at, line_at, with_char, with_deletion, with_newline, Buffer, SaveRequest,
};
use crate::documentstatus::DocumentStatus;
use crate::editorcommand::{Direction, EditorCommand};
use crate::line::{saturate, visible_text, width_upto};
use crate::location::Location;
use crate::terminal::{Position, Size};
use crate::uicomponent::UIComponent;
use vstd::prelude::*;
use vstd::view::View as _;

verus! {

/// The number of clusters in line `l` of `c`; zero past the last line.
pub open spec fn line_len(c: Seq<Seq<Seq<char>>>, l: int) -> nat {
    line_at(c, l).len()
}

/// `a + b`, stopping at `usize::MAX`.
pub open spec fn sat_add(a: usize, b: usize) -> usize {
    saturate((a + b) as nat)
}

/// `a - b`, stopping at zero.
pub open spec fn sat_sub(a: usize, b: usize) -> usize {
    if a >= b {
        (a - b) as usize
    } else {
        0
    }
}

/// `loc` with its cluster index cut back to the length of its line.
pub open spec fn snap_grapheme(c: Seq<Seq<Seq<char>>>, loc: Location) -> Location {
    let len = line_len(c, loc.line_index as int);
    Location {
        line_index: loc.line_index,
        grapheme_index: if loc.grapheme_index <= len {
            loc.grapheme_index
        } else {
            len as usize
        },
    }
}

/// `loc` with its line index cut back to the number of lines.
pub open spec fn snap_line(c: Seq<Seq<Seq<char>>>, loc: Location) -> Location {
    Location {
        line_index: if loc.line_index <= c.len() {
            loc.line_index
        } else {
            c.len() as usize
        },
        grapheme_index: loc.grapheme_index,
    }
}

/// `step` lines up, stopping at the first line.
pub open spec fn moved_up(c: Seq<Seq<Seq<char>>>, loc: Location, step: usize) -> Location {
    snap_grapheme(
        c,
        Location { line_index: sat_sub(loc.line_index, step), grapheme_index: loc.grapheme_index },
    )
}

/// `step` lines down, stopping just past the last line.
pub open spec fn moved_down(c: Seq<Seq<Seq<char>>>, loc: Location, step: usize) -> Location {
    snap_line(
        c,
        snap_grapheme(
            c,
            Location {
                line_index: sat_add(loc.line_index, step),
                grapheme_index: loc.grapheme_index,
            },
        ),
    )
}

/// One cluster right; from the end of a line, the start of the next.
pub open spec fn moved_right(c: Seq<Seq<Seq<char>>>, loc: Location) -> Location {
    if loc.grapheme_index < line_len(c, loc.line_index as int) {
        Location { line_index: loc.line_index, grapheme_index: (loc.grapheme_index + 1) as usize }
    } else {
        moved_down(c, Location { line_index: loc.line_index, grapheme_index: 0 }, 1)
    }
}

/// One cluster left; from the start of a line, the end of the previous one;
/// from the start of the first line, nowhere.
pub open spec fn moved_left(c: Seq<Seq<Seq<char>>>, loc: Location) -> Location {
    if loc.grapheme_index > 0 {
        Location { line_index: loc.line_index, grapheme_index: (loc.grapheme_index - 1) as usize }
    } else if loc.line_index == 0 {
        loc
    } else {
        let up = moved_up(c, loc, 1);
        Location {
            line_index: up.line_index,
            grapheme_index: line_len(c, up.line_index as int) as usize,
        }
    }
}

/// Where the caret goes from `loc` in direction `dir`, with pages of
/// `height - 1` lines.
pub open spec fn moved(c: Seq<Seq<Seq<char>>>, loc: Location, dir: Direction, height: usize) -> Location {
    match dir {
        Direction::Up => moved_up(c, loc, 1),
        Direction::Down => moved_down(c, loc, 1),
        Direction::Left => moved_left(c, loc),
        Direction::Right => moved_right(c, loc),
        Direction::PageUp => moved_up(c, loc, sat_sub(height, 1)),
        Direction::PageDown => moved_down(c, loc, sat_sub(height, 1)),
        Direction::Home => Location { line_index: loc.line_index, grapheme_index: 0 },
        Direction::End => Location {
            line_index: loc.line_index,
            grapheme_index: line_len(c, loc.line_index as int) as usize,
        },
    }
}

/// The screen cell of `loc` before scrolling: its line as the row, and the
/// display column at which its cluster starts.
pub open spec fn position_of(c: Seq<Seq<Seq<char>>>, loc: Location) -> Position {
    let line = line_at(c, loc.line_index as int);
    let g = if loc.grapheme_index <= line.len() {
        loc.grapheme_index as int
    } else {
        line.len() as int
    };
    Position { row: loc.line_index, col: saturate(width_upto(line, g)) }
}

/// Whether `to` lies in the `extent` cells from `offset` on.
pub open spec fn in_extent(offset: usize, to: usize, extent: usize) -> bool {
    offset <= to && to - offset < extent
}

/// The offset along one axis that brings `to` into a window of `extent`
/// cells starting at `offset`, moving as little as possible.
pub open spec fn scroll_axis(offset: usize, to: usize, extent: usize) -> usize {
    if to < offset {
        to
    } else if to - offset >= extent {
        if extent == 0 {
            sat_add(to, 1)
        } else {
            (to - extent + 1) as usize
        }
    } else {
        offset
    }
}

/// The scroll offset after bringing `loc` into view.
pub open spec fn scrolled(c: Seq<Seq<Seq<char>>>, loc: Location, offset: Position, size: Size) -> Position {
    let p = position_of(c, loc);
    Position {
        row: scroll_axis(offset.row, p.row, size.height),
        col: scroll_axis(offset.col, p.col, size.width),
    }
}

/// Whether `p` lies in the window of `size` whose top left cell is `offset`.
pub open spec fn in_window(p: Position, offset: Position, size: Size) -> bool {
    offset.row <= p.row && p.row - offset.row < size.height && offset.col <= p.col && p.col
        - offset.col < size.width
}

/// Whether `loc` names a line of `c`, or the place just past the last one,
/// and a cluster index at most that line's length.
pub open spec fn valid_location(c: Seq<Seq<Seq<char>>>, loc: Location) -> bool {
    loc.line_index <= c.len() && loc.grapheme_index <= line_len(c, loc.line_index as int)
}

/// `n` spaces.
pub open spec fn spaces(n: nat) -> Seq<char> {
    Seq::new(n, |i: int| ' ')
}

/// The greeting shown on an empty document, in a row of `width` columns:
/// a `~`, then the program's name and version centred in the rest of the
/// row; just the `~` where they do not fit.
pub open spec fn welcome_text(width: usize, name: Seq<char>, version: Seq<char>) -> Seq<char> {
    let msg = name + " editor -- version "@ + version;
    if width == 0 {
        seq![' ']
    } else if width - 1 < msg.len() {
        seq!['~']
    } else {
        let pad = (width - 1 - msg.len()) as nat;
        seq!['~'] + spaces(pad / 2) + msg + spaces((pad - pad / 2) as nat)
    }
}

/// The text of row `k` of a view onto `c` whose top left cell is `offset`,
/// of `size`, drawn from screen row `origin_y` on: the visible part of the
/// line shown there; past the end of an empty document, the greeting on the
/// row a third of the way down; otherwise a `~`.
pub open spec fn row_text(
    c: Seq<Seq<Seq<char>>>,
    offset: Position,
    size: Size,
    origin_y: usize,
    k: usize,
    name: Seq<char>,
    version: Seq<char>,
) -> Seq<char> {
    let idx = sat_add(k, offset.row);
    if idx < c.len() {
        visible_text(
            c[idx as int],
            c[idx as int].len() as int,
            offset.col as int,
            sat_add(offset.col, size.width) as int,
        )
    } else if origin_y + k == size.height / 3 && c.len() == 0 {
        welcome_text(size.width, name, version)
    } else {
        seq!['~']
    }
}

/// Whether `after`, with the result `r`, is what carrying out `cmd` on
/// `before` gives: a move goes where `moved` says and scrolls there; an
/// insert, delete, backspace or line break changes the document as the
/// buffer does and moves the caret accordingly; a save asks to write the
/// document where it has a file; a resize takes the new size.
pub open spec fn handled(before: View, after: View, cmd: EditorCommand, r: Option<SaveRequest>) -> bool {
    let c = before.buffer_of().content();
    let loc = before.location();
    let off = before.offset();
    let size = before.size_of();
    let b = after.buffer_of();
    match cmd {
        EditorCommand::Move(dir) => {
            &&& b == before.buffer_of()
            &&& after.location() == moved(c, loc, dir, size.height)
            &&& after.offset() == scrolled(c, after.location(), off, size)
            &&& after.size_of() == size
            &&& r is None
        },
        EditorCommand::Insert(ch) => {
            let c2 = with_char(c, loc, ch);
            &&& b.content() == c2
            &&& b.dirty == (before.buffer_of().dirty || inserts_at(c, loc))
            &&& b.file_info == before.buffer_of().file_info
            &&& if line_len(c2, loc.line_index as int) > line_len(
                c,
                loc.line_index as int,
            ) {
                &&& after.location() == moved_right(c2, loc)
                &&& after.offset() == scrolled(
                    c2,
                    after.location(),
                    off,
                    size,
                )
            } else {
                after.location() == loc && after.offset() == off
            }
            &&& after.size_of() == size
            &&& after.redraw_pending()
            &&& r is None
        },
        EditorCommand::Backspace => {
            &&& after.size_of() == size
            &&& r is None
            &&& if loc.line_index == 0 && loc.grapheme_index == 0 {
                &&& b == before.buffer_of()
                &&& after.location() == loc
                &&& after.offset() == off
            } else {
                let left = moved_left(c, loc);
                &&& after.location() == left
                &&& after.offset() == scrolled(c, left, off, size)
                &&& b.content() == with_deletion(c, left)
                &&& b.dirty == (before.buffer_of().dirty || deletes_something(
                    c,
                    left,
                ))
                &&& b.file_info == before.buffer_of().file_info
                &&& after.redraw_pending()
            }
        },
        EditorCommand::Delete => {
            &&& b.content() == with_deletion(c, loc)
            &&& b.dirty == (before.buffer_of().dirty || deletes_something(c, loc))
            &&& b.file_info == before.buffer_of().file_info
            &&& after.location() == loc
            &&& after.offset() == off
            &&& after.size_of() == size
            &&& after.redraw_pending()
            &&& r is None
        },
        EditorCommand::Enter => {
            let c2 = with_newline(c, loc);
            &&& b.content() == c2
            &&& b.dirty == (before.buffer_of().dirty || loc.line_index <= c.len())
            &&& b.file_info == before.buffer_of().file_info
            &&& after.location() == moved_right(c2, loc)
            &&& after.offset() == scrolled(c2, after.location(), off, size)
            &&& after.size_of() == size
            &&& after.redraw_pending()
            &&& r is None
        },
        EditorCommand::Save => {
            &&& b == before.buffer_of()
            &&& after.location() == loc
            &&& after.offset() == off
            &&& after.size_of() == size
            &&& (r is None <==> b.file_info.path is None)
            &&& r matches Some(q) ==> (b.file_info.path matches Some(p) && q.path@
                == p@) && q.contents@ == crate::buffer::join_lines(
                crate::buffer::texts_of(b.lines@),
            )
        },
        EditorCommand::Resize(s) => {
            &&& b == before.buffer_of()
            &&& after.location() == loc
            &&& after.offset() == scrolled(c, loc, off, s)
            &&& after.size_of() == s
            &&& after.redraw_pending()
            &&& r is None
        },
        EditorCommand::Quit => {
            &&& b == before.buffer_of()
            &&& after.location() == loc
            &&& after.offset() == off
            &&& after.size_of() == size
            &&& after.redraw_pending() == before.redraw_pending()
            &&& r is None
        },
    }
}

/// The editing area: a document, the caret in it, and the part of it that
/// shows on screen.
pub struct View {
    buffer: Buffer,
    needs_redraw: bool,
    size: Size,
    text_location: Location,
    scroll_offset: Position,
}

impl View {
    /// The document being edited.
    pub closed spec fn buffer_of(&self) -> Buffer {
        self.buffer
    }

    /// The caret's place in the document.
    pub closed spec fn location(&self) -> Location {
        self.text_location
    }

    /// The document cell shown at the top left of the view.
    pub closed spec fn offset(&self) -> Position {
        self.scroll_offset
    }

    /// Whether the caret's cell lies within the view.
    pub open spec fn caret_in_view(&self) -> bool {
        in_window(
            position_of(self.buffer_of().content(), self.location()),
            self.offset(),
            self.size_of(),
        )
    }

    /// An empty document shown at `size`, with the caret at its start.
    pub fn new(size: Size) -> (r: View)
        ensures
            r.well_formed(),
            r.buffer_of().content().len() == 0,
            r.buffer_of().file_info.path is None,
            !r.buffer_of().dirty,
            r.location() == (Location { line_index: 0, grapheme_index: 0 }),
            r.offset() == (Position { row: 0, col: 0 }),
            r.size_of() == size,
            r.redraw_pending(),
    {
        View {
            buffer: Buffer::new(),
            needs_redraw: true,
            size,
            text_location: Location { grapheme_index: 0, line_index: 0 },
            scroll_offset: Position { col: 0, row: 0 },
        }
    }

    /// The document being edited.
    pub fn buffer(&self) -> (r: &Buffer)
        ensures
            *r == self.buffer_of(),
    {
        &self.buffer
    }

    /// The caret's place in the document.
    pub fn text_location(&self) -> (r: Location)
        ensures
            r == self.location(),
    {
        self.text_location
    }

    /// The document cell shown at the top left of the view.
    pub fn scroll_offset(&self) -> (r: Position)
        ensures
            r == self.offset(),
    {
        self.scroll_offset
    }

    /// What the status bar shows of this document.
    pub fn get_status(&self) -> (r: DocumentStatus)
        ensures
            r.total_lines == self.buffer_of().content().len(),
            r.current_line_index == self.location().line_index,
            r.filename@ == self.buffer_of().file_info.shown_name(),
            r.is_modified == self.buffer_of().dirty,
    {
        DocumentStatus {
            total_lines: self.buffer.height(),
            current_line_index: self.text_location.line_index,
            filename: self.buffer.file_info.display_name(),
            is_modified: self.buffer.dirty,
        }
    }

    /// Shows `buffer` in place of the current document, keeping the caret
    /// where it still names a place in it and scrolling it into view.
    pub fn load(&mut self, buffer: Buffer)
        requires
            old(self).well_formed(),
        ensures
            final(self).well_formed(),
            final(self).buffer_of() == buffer,
            final(self).location() == snap_line(
                buffer.content(),
                snap_grapheme(buffer.content(), old(self).location()),
            ),
            final(self).offset() == scrolled(
                buffer.content(),
                final(self).location(),
                old(self).offset(),
                old(self).size_of(),
            ),
            final(self).size_of() == old(self).size_of(),
            final(self).redraw_pending(),
            final(self).size_of().height > 0 && final(self).size_of().width > 0
                ==> final(self).caret_in_view(),
    {
        self.buffer = buffer;
        self.snap_to_valid_grapheme();
        self.snap_to_valid_line();
        self.scroll_location_into_view();
        self.needs_redraw = true;
    }

    /// Carries out `cmd`. A save does not write anything itself: where the
    /// document has a file, the result says what to write there, and
    /// `save_finished` takes the outcome.
    pub fn handle_command(&mut self, cmd: EditorCommand) -> (r: Option<SaveRequest>)
        requires
            old(self).well_formed(),
        ensures
            final(self).well_formed(),
            final(self).size_of().height > 0 && final(self).size_of().width > 0
                ==> final(self).caret_in_view(),
            handled(*old(self), *final(self), cmd, r),
    {
        match cmd {
            EditorCommand::Move(dir) => {
                self.move_text_location(dir);
                None
            },
            EditorCommand::Insert(ch) => {
                self.insert_char(ch);
                None
            },
            EditorCommand::Backspace => {
                self.backspace();
                None
            },
            EditorCommand::Delete => {
                self.delete();
                None
            },
            EditorCommand::Enter => {
                self.insert_newline();
                None
            },
            EditorCommand::Save => self.buffer.save_request(),
            EditorCommand::Resize(size) => {
                self.apply_size(size);
                self.needs_redraw = true;
                None
            },
            EditorCommand::Quit => None,
        }
    }

    /// Records how the save that `handle_command` asked for ended.
    pub fn save_finished(&mut self, succeeded: bool)
        requires
            old(self).well_formed(),
        ensures
            final(self).well_formed(),
            final(self).buffer_of().dirty == (old(self).buffer_of().dirty && !succeeded),
            final(self).buffer_of().lines == old(self).buffer_of().lines,
            final(self).buffer_of().file_info == old(self).buffer_of().file_info,
            final(self).location() == old(self).location(),
            final(self).offset() == old(self).offset(),
            final(self).size_of() == old(self).size_of(),
            final(self).redraw_pending() == old(self).redraw_pending(),
    {
        self.buffer.finish_save(succeeded);
    }

    /// The caret's cell on screen, relative to the view's top left.
    pub fn caret_position(&self) -> (r: Position)
        ensures
            r.row == sat_sub(
                position_of(self.buffer_of().content(), self.location()).row,
                self.offset().row,
            ),
            r.col == sat_sub(
                position_of(self.buffer_of().content(), self.location()).col,
                self.offset().col,
            ),
    {
        self.text_location_to_position().saturating_sub(self.scroll_offset)
    }

    /// The rows to write from screen row `origin_y` on, one for each row of
    /// the view (fewer only where the screen rows would pass `usize::MAX`).
    pub fn draw_rows(&self, origin_y: usize, name: &str, version: &str) -> (r: Vec<String>)
        ensures
            r@.len() == sat_add(origin_y, self.size_of().height) - origin_y,
            forall|k: int|
                0 <= k < r@.len() ==> (#[trigger] r@[k])@ == row_text(
                    self.buffer_of().content(),
                    self.offset(),
                    self.size_of(),
                    origin_y,
                    k as usize,
                    name@,
                    version@,
                ),
    {
        let height = self.size.height;
        let width = self.size.width;
        let end_y = origin_y.saturating_add(height);
        let top_third = height / 3;
        let scroll_top = self.scroll_offset.row;
        let left = self.scroll_offset.col;
        let right = self.scroll_offset.col.saturating_add(width);
        let mut rows: Vec<String> = Vec::new();
        let mut current_row = origin_y;
        while current_row < end_y
            invariant
                origin_y <= current_row <= end_y,
                end_y == sat_add(origin_y, height),
                height == self.size_of().height,
                width == self.size_of().width,
                top_third == height / 3,
                scroll_top == self.offset().row,
                left == self.offset().col,
                right == sat_add(left, width),
                rows@.len() == current_row - origin_y,
                forall|k: int|
                    0 <= k < rows@.len() ==> (#[trigger] rows@[k])@ == row_text(
                        self.buffer_of().content(),
                        self.offset(),
                        self.size_of(),
                        origin_y,
                        k as usize,
                        name@,
                        version@,
                    ),
            decreases end_y - current_row,
        {
            let k = current_row - origin_y;
            let line_idx = k.saturating_add(scroll_top);
            let text = if line_idx < self.buffer.lines.len() {
                self.buffer.lines[line_idx].get_visible_graphemes(left..right)
            } else if current_row == top_third && self.buffer.is_empty() {
                Self::build_welcome_message(width, name, version)
            } else {
                let mut t = String::new();
                push_char(&mut t, '~');
                t
            };
            proof {
                assert(text@ == row_text(
                    self.buffer_of().content(),
                    self.offset(),
                    self.size_of(),
                    origin_y,
                    k as usize,
                    name@,
                    version@,
                ));
            }
            rows.push(text);
            current_row = current_row + 1;
        }
        rows
    }

    /// The greeting for an empty document in a row of `width` columns.
    pub fn build_welcome_message(width: usize, name: &str, version: &str) -> (r: String)
        ensures
            r@ == welcome_text(width, name@, version@),
    {
        let mut r = String::new();
        if width == 0 {
            push_char(&mut r, ' ');
            return r;
        }
        let mut msg = String::from_str(name);
        msg.append(" editor -- version ");
        msg.append(version);
        let len = msg.as_str().unicode_len();
        let remaining_width = width - 1;
        push_char(&mut r, '~');
        if remaining_width < len {
            return r;
        }
        let pad = remaining_width - len;
        let left = pad / 2;
        let mut i: usize = 0;
        while i < left
            invariant
                i <= left,
                r@ == seq!['~'] + spaces(i as nat),
            decreases left - i,
        {
            push_char(&mut r, ' ');
            i = i + 1;
            proof {
                assert(r@ =~= seq!['~'] + spaces(i as nat));
            }
        }
        r.append(msg.as_str());
        let ghost head = r@;
        let mut j: usize = 0;
        while j < pad - left
            invariant
                j <= pad - left,
                r@ == head + spaces(j as nat),
            decreases pad - left - j,
        {
            push_char(&mut r, ' ');
            j = j + 1;
            proof {
                assert(r@ =~= head + spaces(j as nat));
            }
        }
        proof {
            assert(r@ =~= welcome_text(width, name@, version@));
        }
        r
    }

    fn insert_newline(&mut self)
        requires
            old(self).well_formed(),
        ensures
            final(self).well_formed(),
            ({
                let c = old(self).buffer_of().content();
                let loc = old(self).location();
                let c2 = with_newline(c, loc);
                &&& final(self).buffer_of().content() == c2
                &&& final(self).buffer_of().dirty == (old(self).buffer_of().dirty || loc.line_index
                    <= c.len())
                &&& final(self).buffer_of().file_info == old(self).buffer_of().file_info
                &&& final(self).location() == moved_right(c2, loc)
                &&& final(self).offset() == scrolled(
                    c2,
                    final(self).location(),
                    old(self).offset(),
                    old(self).size_of(),
                )
            }),
            final(self).size_of() == old(self).size_of(),
            final(self).redraw_pending(),
    {
        let ghost c = self.buffer.content();
        self.buffer.insert_newline(self.text_location);
        proof {
            lemma_newline_keeps_location(c, self.text_location);
        }
        self.move_text_location(Direction::Right);
        self.needs_redraw = true;
    }

    fn backspace(&mut self)
        requires
            old(self).well_formed(),
        ensures
            final(self).well_formed(),
            final(self).size_of() == old(self).size_of(),
            ({
                let c = old(self).buffer_of().content();
                let loc = old(self).location();
                let b = final(self).buffer_of();
                if loc.line_index == 0 && loc.grapheme_index == 0 {
                    &&& b == old(self).buffer_of()
                    &&& final(self).location() == loc
                    &&& final(self).offset() == old(self).offset()
                } else {
                    let left = moved_left(c, loc);
                    &&& final(self).location() == left
                    &&& final(self).offset() == scrolled(
                        c,
                        left,
                        old(self).offset(),
                        old(self).size_of(),
                    )
                    &&& b.content() == with_deletion(c, left)
                    &&& b.dirty == (old(self).buffer_of().dirty || deletes_something(c, left))
                    &&& b.file_info == old(self).buffer_of().file_info
                    &&& final(self).redraw_pending()
                }
            }),
    {
        if self.text_location.line_index != 0 || self.text_location.grapheme_index != 0 {
            self.move_text_location(Direction::Left);
            self.delete();
        }
    }

    fn delete(&mut self)
        requires
            old(self).well_formed(),
        ensures
            final(self).well_formed(),
            final(self).buffer_of().content() == with_deletion(
                old(self).buffer_of().content(),
                old(self).location(),
            ),
            final(self).buffer_of().dirty == (old(self).buffer_of().dirty || deletes_something(
                old(self).buffer_of().content(),
                old(self).location(),
            )),
            final(self).buffer_of().file_info == old(self).buffer_of().file_info,
            final(self).location() == old(self).location(),
            final(self).offset() == old(self).offset(),
            final(self).size_of() == old(self).size_of(),
            final(self).redraw_pending(),
    {
        let ghost c = self.buffer.content();
        self.buffer.delete(self.text_location);
        proof {
            lemma_deletion_keeps_caret(c, self.text_location);
        }
        self.needs_redraw = true;
    }

    fn insert_char(&mut self, ch: char)
        requires
            old(self).well_formed(),
        ensures
            final(self).well_formed(),
            ({
                let c = old(self).buffer_of().content();
                let loc = old(self).location();
                let c2 = with_char(c, loc, ch);
                &&& final(self).buffer_of().content() == c2
                &&& final(self).buffer_of().dirty == (old(self).buffer_of().dirty || inserts_at(
                    c,
                    loc,
                ))
                &&& final(self).buffer_of().file_info == old(self).buffer_of().file_info
                &&& if line_len(c2, loc.line_index as int) > line_len(c, loc.line_index as int) {
                    &&& final(self).location() == moved_right(c2, loc)
                    &&& final(self).offset() == scrolled(
                        c2,
                        final(self).location(),
                        old(self).offset(),
                        old(self).size_of(),
                    )
                } else {
                    final(self).location() == loc && final(self).offset() == old(self).offset()
                }
            }),
            final(self).size_of() == old(self).size_of(),
            final(self).redraw_pending(),
    {
        let ghost c = self.buffer.content();
        let old_len = self.buffer.line_length(self.text_location.line_index);
        self.buffer.insert_char(ch, self.text_location);
        let new_len = self.buffer.line_length(self.text_location.line_index);
        proof {
            lemma_insert_keeps_caret(c, self.text_location, ch);
        }
        if new_len > old_len {
            self.move_text_location(Direction::Right);
        }
        self.needs_redraw = true;
    }

    fn move_text_location(&mut self, dir: Direction)
        requires
            valid_location(old(self).buffer_of().content(), old(self).location()),
        ensures
            final(self).well_formed(),
            final(self).buffer_of() == old(self).buffer_of(),
            final(self).location() == moved(
                old(self).buffer_of().content(),
                old(self).location(),
                dir,
                old(self).size_of().height,
            ),
            final(self).offset() == scrolled(
                old(self).buffer_of().content(),
                final(self).location(),
                old(self).offset(),
                old(self).size_of(),
            ),
            final(self).size_of() == old(self).size_of(),
            old(self).redraw_pending() ==> final(self).redraw_pending(),
            final(self).offset() != old(self).offset() ==> final(self).redraw_pending(),
    {
        let height = self.size.height;
        match dir {
            Direction::Up => self.move_up(1),
            Direction::Down => self.move_down(1),
            Direction::Left => self.move_left(),
            Direction::Right => self.move_right(),
            Direction::PageUp => self.move_up(height.saturating_sub(1)),
            Direction::PageDown => self.move_down(height.saturating_sub(1)),
            Direction::Home => self.move_to_start_of_line(),
            Direction::End => self.move_to_end_of_line(),
        }
        proof {
            lemma_moved_valid(self.buffer.content(), old(self).location(), dir, height);
        }
        self.scroll_location_into_view();
    }

    fn move_up(&mut self, step: usize)
        ensures
            final(self).buffer_of() == old(self).buffer_of(),
            final(self).location() == moved_up(
                old(self).buffer_of().content(),
                old(self).location(),
                step,
            ),
            final(self).offset() == old(self).offset(),
            final(self).size_of() == old(self).size_of(),
            final(self).redraw_pending() == old(self).redraw_pending(),
    {
        self.text_location.line_index = self.text_location.line_index.saturating_sub(step);
        self.snap_to_valid_grapheme();
    }

    fn move_down(&mut self, step: usize)
        ensures
            final(self).buffer_of() == old(self).buffer_of(),
            final(self).location() == moved_down(
                old(self).buffer_of().content(),
                old(self).location(),
                step,
            ),
            final(self).offset() == old(self).offset(),
            final(self).size_of() == old(self).size_of(),
            final(self).redraw_pending() == old(self).redraw_pending(),
    {
        self.text_location.line_index = self.text_location.line_index.saturating_add(step);
        self.snap_to_valid_grapheme();
        self.snap_to_valid_line();
    }

    fn move_right(&mut self)
        ensures
            final(self).buffer_of() == old(self).buffer_of(),
            final(self).location() == moved_right(
                old(self).buffer_of().content(),
                old(self).location(),
            ),
            final(self).offset() == old(self).offset(),
            final(self).size_of() == old(self).size_of(),
            final(self).redraw_pending() == old(self).redraw_pending(),
    {
        let line_width = self.buffer.line_length(self.text_location.line_index);
        if self.text_location.grapheme_index < line_width {
            self.text_location.grapheme_index = self.text_location.grapheme_index + 1;
        } else {
            self.move_to_start_of_line();
            self.move_down(1);
        }
    }

    fn move_left(&mut self)
        ensures
            final(self).buffer_of() == old(self).buffer_of(),
            final(self).location() == moved_left(
                old(self).buffer_of().content(),
                old(self).location(),
            ),
            final(self).offset() == old(self).offset(),
            final(self).size_of() == old(self).size_of(),
            final(self).redraw_pending() == old(self).redraw_pending(),
    {
        if self.text_location.grapheme_index > 0 {
            self.text_location.grapheme_index = self.text_location.grapheme_index - 1;
        } else if self.text_location.line_index > 0 {
            self.move_up(1);
            self.move_to_end_of_line();
        }
    }

    fn move_to_end_of_line(&mut self)
        ensures
            final(self).buffer_of() == old(self).buffer_of(),
            final(self).location() == (Location {
                line_index: old(self).location().line_index,
                grapheme_index: line_len(
                    old(self).buffer_of().content(),
                    old(self).location().line_index as int,
                ) as usize,
            }),
            final(self).offset() == old(self).offset(),
            final(self).size_of() == old(self).size_of(),
            final(self).redraw_pending() == old(self).redraw_pending(),
    {
        self.text_location.grapheme_index = self.buffer.line_length(self.text_location.line_index);
    }

    fn move_to_start_of_line(&mut self)
        ensures
            final(self).buffer_of() == old(self).buffer_of(),
            final(self).location() == (Location {
                line_index: old(self).location().line_index,
                grapheme_index: 0,
            }),
            final(self).offset() == old(self).offset(),
            final(self).size_of() == old(self).size_of(),
            final(self).redraw_pending() == old(self).redraw_pending(),
    {
        self.text_location.grapheme_index = 0;
    }

    fn snap_to_valid_grapheme(&mut self)
        ensures
            final(self).buffer_of() == old(self).buffer_of(),
            final(self).location() == snap_grapheme(
                old(self).buffer_of().content(),
                old(self).location(),
            ),
            final(self).offset() == old(self).offset(),
            final(self).size_of() == old(self).size_of(),
            final(self).redraw_pending() == old(self).redraw_pending(),
    {
        let len = self.buffer.line_length(self.text_location.line_index);
        if self.text_location.grapheme_index > len {
            self.text_location.grapheme_index = len;
        }
    }

    fn snap_to_valid_line(&mut self)
        ensures
            final(self).buffer_of() == old(self).buffer_of(),
            final(self).location() == snap_line(
                old(self).buffer_of().content(),
                old(self).location(),
            ),
            final(self).offset() == old(self).offset(),
            final(self).size_of() == old(self).size_of(),
            final(self).redraw_pending() == old(self).redraw_pending(),
    {
        let height = self.buffer.height();
        if self.text_location.line_index > height {
            self.text_location.line_index = height;
        }
    }

    /// Takes the new size and scrolls the caret into view at it.
    fn apply_size(&mut self, size: Size)
        requires
            old(self).well_formed(),
        ensures
            final(self).well_formed(),
            final(self).buffer_of() == old(self).buffer_of(),
            final(self).location() == old(self).location(),
            final(self).offset() == scrolled(
                old(self).buffer_of().content(),
                old(self).location(),
                old(self).offset(),
                size,
            ),
            final(self).size_of() == size,
            old(self).redraw_pending() ==> final(self).redraw_pending(),
            final(self).offset() != old(self).offset() ==> final(self).redraw_pending(),
    {
        self.size = size;
        self.scroll_location_into_view();
    }

    /// The size the view is drawn at.
    pub fn size(&self) -> (r: Size)
        ensures
            r == self.size_of(),
    {
        self.size
    }

    fn text_location_to_position(&self) -> (r: Position)
        ensures
            r == position_of(self.buffer_of().content(), self.location()),
    {
        let row = self.text_location.line_index;
        let col = self.buffer.width_until(self.text_location);
        Position { col, row }
    }

    fn scroll_vertically(&mut self, to: usize)
        ensures
            final(self).buffer_of() == old(self).buffer_of(),
            final(self).location() == old(self).location(),
            final(self).offset() == (Position {
                row: scroll_axis(old(self).offset().row, to, old(self).size_of().height),
                col: old(self).offset().col,
            }),
            final(self).size_of() == old(self).size_of(),
            final(self).redraw_pending() == (old(self).redraw_pending() || !in_extent(
                old(self).offset().row,
                to,
                old(self).size_of().height,
            )),
    {
        let height = self.size.height;
        let mut offset_changed = false;
        if to < self.scroll_offset.row {
            self.scroll_offset.row = to;
            offset_changed = true;
        } else if to - self.scroll_offset.row >= height {
            self.scroll_offset.row = if height == 0 {
                to.saturating_add(1)
            } else {
                to - height + 1
            };
            offset_changed = true;
        }
        self.needs_redraw = self.needs_redraw || offset_changed;
    }

    fn scroll_horizontally(&mut self, to: usize)
        ensures
            final(self).buffer_of() == old(self).buffer_of(),
            final(self).location() == old(self).location(),
            final(self).offset() == (Position {
                row: old(self).offset().row,
                col: scroll_axis(old(self).offset().col, to, old(self).size_of().width),
            }),
            final(self).size_of() == old(self).size_of(),
            final(self).redraw_pending() == (old(self).redraw_pending() || !in_extent(
                old(self).offset().col,
                to,
                old(self).size_of().width,
            )),
    {
        let width = self.size.width;
        let mut offset_changed = false;
        if to < self.scroll_offset.col {
            self.scroll_offset.col = to;
            offset_changed = true;
        } else if to - self.scroll_offset.col >= width {
            self.scroll_offset.col = if width == 0 {
                to.saturating_add(1)
            } else {
                to - width + 1
            };
            offset_changed = true;
        }
        self.needs_redraw = self.needs_redraw || offset_changed;
    }

    fn scroll_location_into_view(&mut self)
        requires
            valid_location(old(self).buffer_of().content(), old(self).location()),
        ensures
            final(self).well_formed(),
            final(self).buffer_of() == old(self).buffer_of(),
            final(self).location() == old(self).location(),
            final(self).offset() == scrolled(
                old(self).buffer_of().content(),
                old(self).location(),
                old(self).offset(),
                old(self).size_of(),
            ),
            final(self).size_of() == old(self).size_of(),
            old(self).redraw_pending() ==> final(self).redraw_pending(),
            final(self).offset() != old(self).offset() ==> final(self).redraw_pending(),
    {
        let p = self.text_location_to_position();
        self.scroll_vertically(p.row);
        self.scroll_horizontally(p.col);
        proof {
            lemma_scroll_shows(p, self.scroll_offset, self.size, old(self).offset());
        }
    }
}

impl UIComponent for View {
    /// The caret names a place in the document and, wherever the view has
    /// room, shows within it.
    closed spec fn well_formed(&self) -> bool {
        &&& valid_location(self.buffer.content(), self.text_location)
        &&& self.size.height > 0 && self.size.width > 0 ==> in_window(
            position_of(self.buffer.content(), self.text_location),
            self.scroll_offset,
            self.size,
        )
    }

    closed spec fn redraw_pending(&self) -> bool {
        self.needs_redraw
    }

    closed spec fn size_of(&self) -> Size {
        self.size
    }

    fn mark_redraw(&mut self, value: bool) {
        self.needs_redraw = value;
    }

    fn needs_redraw(&self) -> (r: bool) {
        self.needs_redraw
    }

    fn set_size(&mut self, size: Size) {
        self.apply_size(size);
    }
}

/// Moving right and then left brings the caret back where it was, from any
/// place on a line of the document; from the end of a line this goes to the
/// start of the next line (or past the last one) and back to that end.
pub proof fn right_then_left(c: Seq<Seq<Seq<char>>>, loc: Location, height: usize)
    requires
        c.len() <= usize::MAX,
        forall|i: int| 0 <= i < c.len() ==> (#[trigger] c[i]).len() <= usize::MAX,
        valid_location(c, loc),
        loc.line_index < c.len(),
    ensures
        moved(c, moved(c, loc, Direction::Right, height), Direction::Left, height) == loc,
{
    assert(c[loc.line_index as int].len() <= usize::MAX);
}

/// Every edit that changes the document leaves it marked as changed: an
/// insert or a line break always does, and so does a delete or backspace
/// wherever it removes something.
pub proof fn edits_mark_dirty(before: View, after: View, cmd: EditorCommand, r: Option<SaveRequest>)
    requires
        before.well_formed(),
        handled(before, after, cmd, r),
        match cmd {
            EditorCommand::Insert(_) | EditorCommand::Enter => true,
            EditorCommand::Delete => deletes_something(
                before.buffer_of().content(),
                before.location(),
            ),
            EditorCommand::Backspace => !(before.location().line_index == 0
                && before.location().grapheme_index == 0) && deletes_something(
                before.buffer_of().content(),
                moved_left(before.buffer_of().content(), before.location()),
            ),
            _ => false,
        },
    ensures
        after.buffer_of().dirty,
{
}

/// After scrolling toward `p`, the offset shows `p` wherever the view has
/// room.
proof fn lemma_scroll_shows(p: Position, offset: Position, size: Size, before: Position)
    requires
        offset == (Position {
            row: scroll_axis(before.row, p.row, size.height),
            col: scroll_axis(before.col, p.col, size.width),
        }),
    ensures
        size.height > 0 && size.width > 0 ==> in_window(p, offset, size),
{
}

/// A line break at the caret leaves the caret naming a place in the new
/// document.
proof fn lemma_newline_keeps_location(c: Seq<Seq<Seq<char>>>, loc: Location)
    requires
        valid_location(c, loc),
    ensures
        valid_location(with_newline(c, loc), loc),
{
    let c2 = with_newline(c, loc);
    let l = loc.line_index as int;
    if l < c.len() {
        assert(c2[l] == c[l].subrange(0, loc.grapheme_index as int));
    }
}

/// An insert at a valid caret always lengthens the caret's line, and leaves
/// the caret naming a place in the new document.
proof fn lemma_insert_keeps_caret(c: Seq<Seq<Seq<char>>>, loc: Location, ch: char)
    requires
        valid_location(c, loc),
    ensures
        valid_location(with_char(c, loc, ch), loc),
        line_len(with_char(c, loc, ch), loc.line_index as int) > line_len(c, loc.line_index as int),
{
}

/// Every move from a place in the document lands on a place in it.
proof fn lemma_moved_valid(c: Seq<Seq<Seq<char>>>, loc: Location, dir: Direction, height: usize)
    requires
        valid_location(c, loc),
    ensures
        valid_location(c, moved(c, loc, dir, height)),
{
}

/// A delete at the caret keeps the caret in place, on screen as in the
/// document.
proof fn lemma_deletion_keeps_caret(c: Seq<Seq<Seq<char>>>, loc: Location)
    requires
        valid_location(c, loc),
    ensures
        valid_location(with_deletion(c, loc), loc),
        position_of(with_deletion(c, loc), loc) == position_of(c, loc),
{
    let c2 = with_deletion(c, loc);
    let l = loc.line_index as int;
    let g = loc.grapheme_index as int;
    if l < c.len() && g >= c[l].len() && l + 1 < c.len() {
        assert(c2[l] == c[l] + c[l + 1]);
        lemma_width_prefix(c[l], c[l] + c[l + 1], g);
    } else if l < c.len() && g < c[l].len() {
        assert(c2[l] == c[l].remove(g));
        lemma_width_prefix(c[l], c[l].remove(g), g);
    }
}

/// Two lines that agree on their first `n` clusters agree on the column at
/// which cluster `n` starts.
proof fn lemma_width_prefix(a: Seq<Seq<char>>, b: Seq<Seq<char>>, n: int)
    requires
        0 <= n <= a.len(),
        n <= b.len(),
        forall|k: int| 0 <= k < n ==> a[k] == b[k],
    ensures
        width_upto(a, n) == width_upto(b, n),
    decreases n,
{
    if n > 0 {
        lemma_width_prefix(a, b, n - 1);
    }
}

} // verus!
