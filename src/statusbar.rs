use crate::documentstatus::DocumentStatus;
use crate::terminal::Size;
use crate::uicomponent::UIComponent;
use crate::buffer::push_char;
use crate::view::{sat_add, spaces};
use vstd::prelude::*;

verus! {

/// The decimal digits of `n`, most significant first.
pub open spec fn decimal(n: nat) -> Seq<char>
    decreases n,
{
    let digits = seq!['0', '1', '2', '3', '4', '5', '6', '7', '8', '9'];
    if n < 10 {
        seq![digits[n as int]]
    } else {
        decimal(n / 10).push(digits[(n % 10) as int])
    }
}

/// The decimal digit for `d`.
fn digit_char(d: usize) -> (c: char)
    requires
        d < 10,
    ensures
        c == seq!['0', '1', '2', '3', '4', '5', '6', '7', '8', '9'][d as int],
{
    if d == 0 {
        '0'
    } else if d == 1 {
        '1'
    } else if d == 2 {
        '2'
    } else if d == 3 {
        '3'
    } else if d == 4 {
        '4'
    } else if d == 5 {
        '5'
    } else if d == 6 {
        '6'
    } else if d == 7 {
        '7'
    } else if d == 8 {
        '8'
    } else {
        '9'
    }
}

/// `n` in decimal, without sign or leading zeros.
fn decimal_text(n: usize) -> (r: String)
    ensures
        r@ == decimal(n as nat),
    decreases n,
{
    if n < 10 {
        let mut r = String::new();
        push_char(&mut r, digit_char(n));
        proof {
            assert(r@ =~= decimal(n as nat));
        }
        r
    } else {
        let mut r = decimal_text(n / 10);
        push_char(&mut r, digit_char(n % 10));
        r
    }
}

/// `text` right-aligned in `width` columns: spaces before it where it is
/// shorter, unchanged where it is not.
pub open spec fn align_right(text: Seq<char>, width: nat) -> Seq<char> {
    if text.len() < width {
        spaces((width - text.len()) as nat) + text
    } else {
        text
    }
}

/// The status bar's text for `status` in a row of `width` columns: the file
/// name, the line count and whether there are changes to save, then the
/// caret's line and the line count at the right edge; nothing where that
/// does not fit.
pub open spec fn status_text_of(status: DocumentStatus, width: usize) -> Seq<char> {
    let modified = if status.is_modified {
        "(modified)"@
    } else {
        Seq::empty()
    };
    let beginning = status.filename@ + " - "@ + decimal(status.total_lines as nat) + " lines "@
        + modified;
    let position = decimal(sat_add(status.current_line_index, 1) as nat) + "/"@ + decimal(
        status.total_lines as nat,
    );
    let remainder = if width >= beginning.len() {
        (width - beginning.len()) as nat
    } else {
        0
    };
    let line = beginning + align_right(position, remainder);
    if line.len() <= width {
        line
    } else {
        Seq::empty()
    }
}

/// The row that shows the document's status.
pub struct StatusBar {
    current_status: DocumentStatus,
    needs_redraw: bool,
    size: Size,
}

impl StatusBar {
    /// The status last shown.
    pub closed spec fn status(&self) -> DocumentStatus {
        self.current_status
    }

    pub fn new() -> (r: StatusBar)
        ensures
            r.status().total_lines == 0,
            r.status().current_line_index == 0,
            r.status().filename@.len() == 0,
            !r.status().is_modified,
            !r.redraw_pending(),
            r.size_of() == (Size { height: 0, width: 0 }),
    {
        StatusBar {
            current_status: DocumentStatus {
                total_lines: 0,
                current_line_index: 0,
                filename: String::new(),
                is_modified: false,
            },
            needs_redraw: false,
            size: Size { height: 0, width: 0 },
        }
    }

    /// Takes `new_status`; asks to be drawn again only where it differs from
    /// the status shown.
    pub fn update_status(&mut self, new_status: DocumentStatus)
        ensures
            final(self).size_of() == old(self).size_of(),
            ({
                let same = old(self).status().total_lines == new_status.total_lines
                    && old(self).status().current_line_index == new_status.current_line_index
                    && old(self).status().filename@ == new_status.filename@
                    && old(self).status().is_modified == new_status.is_modified;
                if same {
                    final(self).status() == old(self).status() && final(self).redraw_pending()
                        == old(self).redraw_pending()
                } else {
                    final(self).status() == new_status && final(self).redraw_pending()
                }
            }),
    {
        if new_status != self.current_status {
            self.current_status = new_status;
            self.needs_redraw = true;
        }
    }

    /// The text to show in the bar.
    pub fn status_text(&self) -> (r: String)
        ensures
            r@ == status_text_of(self.status(), self.size_of().width),
    {
        let status = &self.current_status;
        let width = self.size.width;
        let mut beginning = status.filename.clone();
        beginning.append(" - ");
        beginning.append(decimal_text(status.total_lines).as_str());
        beginning.append(" lines ");
        if status.is_modified {
            beginning.append("(modified)");
        }
        let mut position = decimal_text(status.current_line_index.saturating_add(1));
        position.append("/");
        position.append(decimal_text(status.total_lines).as_str());
        let begin_len = beginning.as_str().unicode_len();
        let position_len = position.as_str().unicode_len();
        let remainder_len = width.saturating_sub(begin_len);
        let mut line = beginning;
        let ghost head = line@;
        if position_len < remainder_len {
            let pad = remainder_len - position_len;
            let mut i: usize = 0;
            while i < pad
                invariant
                    i <= pad,
                    line@ == head + spaces(i as nat),
                decreases pad - i,
            {
                push_char(&mut line, ' ');
                i = i + 1;
                proof {
                    assert(line@ =~= head + spaces(i as nat));
                }
            }
        }
        line.append(position.as_str());
        proof {
            assert(line@ =~= head + align_right(position@, remainder_len as nat));
        }
        if line.as_str().unicode_len() <= width {
            line
        } else {
            String::new()
        }
    }

    /// The status last taken.
    pub fn current_status(&self) -> (r: &DocumentStatus)
        ensures
            *r == self.status(),
    {
        &self.current_status
    }

    /// The size the bar is drawn at.
    pub fn size(&self) -> (r: Size)
        ensures
            r == self.size_of(),
    {
        self.size
    }
}

impl UIComponent for StatusBar {
    open spec fn well_formed(&self) -> bool {
        true
    }

    closed spec fn redraw_pending(&self) -> bool {
        self.needs_redraw
    }

    closed spec fn size_of(&self) -> Size {
        self.size
    }

    fn mark_redraw(&mut self, value: bool) {
        self.needs_redraw = value;
    }

    fn needs_redraw(&self) -> (r: bool) {
        self.needs_redraw
    }

    fn set_size(&mut self, size: Size) {
        self.size = size;
    }
}

} // verus!
