use crate::buffer::{Buffer, SaveRequest};
use crate::editorcommand::EditorCommand;
use crate::statusbar::StatusBar;
use crate::terminal::Size;
use crate::uicomponent::UIComponent;
use crate::view::{handled, sat_sub, View};
use vstd::prelude::*;
use vstd::view::View as _;

verus! {

/// The size of the editing area on a screen of `size`: two rows fewer, for
/// the status bar and the message line.
pub open spec fn view_size(size: Size) -> Size {
    Size { height: sat_sub(size.height, 2), width: size.width }
}

/// The size of the status bar on a screen of `size`: one row.
pub open spec fn status_size(size: Size) -> Size {
    Size { height: 1, width: size.width }
}

/// The window title for a document shown as `filename` in program `name`.
pub open spec fn title_text(filename: Seq<char>, name: Seq<char>) -> Seq<char> {
    filename + " - "@ + name
}

/// The whole editor: the editing area, the status bar, the screen size and
/// the window title; it decides what each command does and what to show.
pub struct Editor {
    should_quit: bool,
    view: View,
    status_bar: StatusBar,
    terminal_size: Size,
    title: String,
}

impl Editor {
    /// The editing area.
    pub closed spec fn view_of(&self) -> View {
        self.view
    }

    /// The status bar.
    pub closed spec fn status_bar_of(&self) -> StatusBar {
        self.status_bar
    }

    /// The size of the whole screen.
    pub closed spec fn screen_size(&self) -> Size {
        self.terminal_size
    }

    /// The window title last set.
    pub closed spec fn title_of(&self) -> Seq<char> {
        self.title@
    }

    /// Whether the user asked to leave.
    pub closed spec fn quitting(&self) -> bool {
        self.should_quit
    }

    /// The editor's consistency condition: that of its editing area.
    pub open spec fn well_formed(&self) -> bool {
        self.view_of().well_formed()
    }

    /// An editor on an empty document, laid out for a screen of `size`.
    pub fn new(size: Size) -> (r: Editor)
        ensures
            r.well_formed(),
            !r.quitting(),
            r.screen_size() == size,
            r.view_of().size_of() == view_size(size),
            r.status_bar_of().size_of() == status_size(size),
            r.view_of().buffer_of().content().len() == 0,
            r.title_of().len() == 0,
    {
        let mut editor = Editor {
            should_quit: false,
            view: View::new(Size { height: 0, width: 0 }),
            status_bar: StatusBar::new(),
            terminal_size: Size { height: 0, width: 0 },
            title: String::new(),
        };
        editor.resize(size);
        editor
    }

    /// Lays the parts out for a screen of `size`, and asks for them to be
    /// drawn again.
    pub fn resize(&mut self, size: Size)
        requires
            old(self).well_formed(),
        ensures
            final(self).well_formed(),
            final(self).screen_size() == size,
            final(self).view_of().size_of() == view_size(size),
            final(self).view_of().buffer_of() == old(self).view_of().buffer_of(),
            final(self).view_of().location() == old(self).view_of().location(),
            final(self).view_of().redraw_pending(),
            final(self).status_bar_of().size_of() == status_size(size),
            final(self).status_bar_of().redraw_pending(),
            final(self).quitting() == old(self).quitting(),
            final(self).title_of() == old(self).title_of(),
    {
        self.terminal_size = size;
        self.view.handle_command(
            EditorCommand::Resize(Size { height: size.height.saturating_sub(2), width: size.width }),
        );
        self.status_bar.resize(Size { height: 1, width: size.width });
    }

    /// Shows the document `buffer`.
    pub fn load(&mut self, buffer: Buffer)
        requires
            old(self).well_formed(),
        ensures
            final(self).well_formed(),
            final(self).view_of().buffer_of() == buffer,
            final(self).view_of().size_of() == old(self).view_of().size_of(),
            final(self).screen_size() == old(self).screen_size(),
            final(self).quitting() == old(self).quitting(),
    {
        self.view.load(buffer);
    }

    /// Brings the status bar up to date with the document. Returns the new
    /// window title where it differs from the one last set; once the title
    /// is on screen, `title_set` records it.
    pub fn refresh_status(&mut self, name: &str) -> (r: Option<String>)
        requires
            old(self).well_formed(),
        ensures
            final(self).well_formed(),
            final(self).view_of() == old(self).view_of(),
            final(self).screen_size() == old(self).screen_size(),
            final(self).quitting() == old(self).quitting(),
            final(self).title_of() == old(self).title_of(),
            final(self).status_bar_of().status().filename@ == old(
                self,
            ).view_of().buffer_of().file_info.shown_name(),
            final(self).status_bar_of().status().total_lines == old(
                self,
            ).view_of().buffer_of().content().len(),
            final(self).status_bar_of().status().current_line_index == old(
                self,
            ).view_of().location().line_index,
            final(self).status_bar_of().status().is_modified == old(
                self,
            ).view_of().buffer_of().dirty,
            final(self).status_bar_of().size_of() == old(self).status_bar_of().size_of(),
            ({
                let before = old(self).status_bar_of().status();
                let v = old(self).view_of();
                let same = before.total_lines == v.buffer_of().content().len()
                    && before.current_line_index == v.location().line_index && before.filename@
                    == v.buffer_of().file_info.shown_name() && before.is_modified
                    == v.buffer_of().dirty;
                final(self).status_bar_of().redraw_pending() == (old(
                    self,
                ).status_bar_of().redraw_pending() || !same)
            }),
            ({
                let t = title_text(old(self).view_of().buffer_of().file_info.shown_name(), name@);
                match r {
                    Some(s) => s@ == t && t != old(self).title_of(),
                    None => t == old(self).title_of(),
                }
            }),
    {
        let status = self.view.get_status();
        let mut title = status.filename.clone();
        title.append(" - ");
        title.append(name);
        self.status_bar.update_status(status);
        if title != self.title {
            Some(title)
        } else {
            None
        }
    }

    /// What can be drawn: anything at all only on a screen with at least
    /// one row and one column; the status bar where there are two rows (it
    /// sits above the message line); the editing area where there are three.
    pub fn parts_to_draw(&self) -> (r: (bool, bool, bool))
        ensures
            r.0 == (self.screen_size().width > 0 && self.screen_size().height > 0),
            r.1 == (self.screen_size().width > 0 && self.screen_size().height > 1),
            r.2 == (self.screen_size().width > 0 && self.screen_size().height > 2),
    {
        let size = self.terminal_size;
        if size.height == 0 || size.width == 0 {
            return (false, false, false);
        }
        (true, size.height > 1, size.height > 2)
    }

    /// Records the window title now on screen.
    pub fn title_set(&mut self, title: String)
        ensures
            final(self).title_of() == title@,
            final(self).view_of() == old(self).view_of(),
            final(self).status_bar_of() == old(self).status_bar_of(),
            final(self).screen_size() == old(self).screen_size(),
            final(self).quitting() == old(self).quitting(),
    {
        self.title = title;
    }

    /// Carries out `cmd`: a quit marks the editor as leaving; a resize lays
    /// the screen out anew; every other command goes to the editing area.
    pub fn evaluate_command(&mut self, cmd: EditorCommand) -> (r: Option<SaveRequest>)
        requires
            old(self).well_formed(),
        ensures
            final(self).well_formed(),
            final(self).title_of() == old(self).title_of(),
            match cmd {
                EditorCommand::Quit => {
                    &&& final(self).quitting()
                    &&& final(self).view_of() == old(self).view_of()
                    &&& final(self).screen_size() == old(self).screen_size()
                    &&& r is None
                },
                EditorCommand::Resize(size) => {
                    &&& final(self).quitting() == old(self).quitting()
                    &&& final(self).screen_size() == size
                    &&& final(self).view_of().size_of() == view_size(size)
                    &&& final(self).status_bar_of().size_of() == status_size(size)
                    &&& final(self).view_of().buffer_of() == old(self).view_of().buffer_of()
                    &&& final(self).view_of().location() == old(self).view_of().location()
                    &&& final(self).view_of().redraw_pending()
                    &&& final(self).status_bar_of().redraw_pending()
                    &&& r is None
                },
                _ => {
                    &&& final(self).quitting() == old(self).quitting()
                    &&& final(self).screen_size() == old(self).screen_size()
                    &&& handled(old(self).view_of(), final(self).view_of(), cmd, r)
                },
            },
    {
        match cmd {
            EditorCommand::Quit => {
                self.should_quit = true;
                None
            },
            EditorCommand::Resize(size) => {
                self.resize(size);
                None
            },
            _ => self.view.handle_command(cmd),
        }
    }

    /// Records how the save asked for by `evaluate_command` ended.
    pub fn save_finished(&mut self, succeeded: bool)
        requires
            old(self).well_formed(),
        ensures
            final(self).well_formed(),
            final(self).view_of().buffer_of().dirty == (old(self).view_of().buffer_of().dirty
                && !succeeded),
            final(self).view_of().buffer_of().lines == old(self).view_of().buffer_of().lines,
            final(self).view_of().location() == old(self).view_of().location(),
            final(self).quitting() == old(self).quitting(),
    {
        self.view.save_finished(succeeded);
    }

    /// Whether the user asked to leave.
    pub fn should_quit(&self) -> (r: bool)
        ensures
            r == self.quitting(),
    {
        self.should_quit
    }

    /// The size of the whole screen.
    pub fn terminal_size(&self) -> (r: Size)
        ensures
            r == self.screen_size(),
    {
        self.terminal_size
    }

    /// The editing area.
    pub fn view(&self) -> (r: &View)
        ensures
            *r == self.view_of(),
    {
        &self.view
    }

    /// The status bar.
    pub fn status_bar(&self) -> (r: &StatusBar)
        ensures
            *r == self.status_bar_of(),
    {
        &self.status_bar
    }

    /// Records that the editing area has been drawn.
    pub fn view_drawn(&mut self)
        requires
            old(self).well_formed(),
        ensures
            final(self).well_formed(),
            !final(self).view_of().redraw_pending(),
            final(self).view_of().size_of() == old(self).view_of().size_of(),
    {
        self.view.mark_redraw(false);
    }

    /// Records that the status bar has been drawn.
    pub fn status_bar_drawn(&mut self)
        requires
            old(self).well_formed(),
        ensures
            final(self).well_formed(),
            !final(self).status_bar_of().redraw_pending(),
            final(self).status_bar_of().size_of() == old(self).status_bar_of().size_of(),
    {
        self.status_bar.mark_redraw(false);
    }
}

} // verus!
