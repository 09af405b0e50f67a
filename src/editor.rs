//! The editor's decisions: what each command does to the viewport, and what
//! the screen should show next.

use vstd::prelude::*;

use crate::editorcommand::{Direction, EditorCommand};
use crate::terminal::Position;
use crate::view::View;

verus! {

/// What to do to the terminal on the next refresh.
pub enum ScreenUpdate {
    /// Clear the screen and say goodbye.
    Farewell,
    /// Draw `rows` from the top, if there are any, and put the caret at
    /// `caret`.
    Draw { rows: Option<Vec<String>>, caret: Position },
}

/// A viewport and whether the user asked to quit.
pub struct Editor {
    should_quit: bool,
    view: View,
}

impl Editor {
    /// Whether the user asked to quit.
    pub closed spec fn quitting(&self) -> bool {
        self.should_quit
    }

    /// The viewport.
    pub closed spec fn view_state(&self) -> View {
        self.view
    }

    pub fn new(view: View) -> (r: Editor)
        ensures
            !r.quitting(),
            r.view_state() == view,
    {
        Editor { should_quit: false, view }
    }

    pub fn should_quit(&self) -> (r: bool)
        ensures
            r == self.quitting(),
    {
        self.should_quit
    }

    /// Applies one command: quitting, a new viewport size, or a caret move.
    pub fn evaluate_command(&mut self, command: EditorCommand)
        ensures
            match command {
                EditorCommand::Quit => final(self).quitting() && final(self).view_state() == old(
                    self,
                ).view_state(),
                EditorCommand::Resize(size) => final(self).quitting() == old(self).quitting()
                    && final(self).view_state().resized_from(&old(self).view_state(), size),
                EditorCommand::Move(direction) => final(self).quitting() == old(self).quitting()
                    && final(self).view_state().moved_by(&old(self).view_state(), direction),
            },
    {
        match command {
            EditorCommand::Quit => {
                self.should_quit = true;
            },
            EditorCommand::Resize(size) => {
                self.view.resize(size);
            },
            EditorCommand::Move(direction) => {
                self.move_point(direction);
            },
        }
    }

    /// Moves the caret of the viewport.
    pub fn move_point(&mut self, direction: Direction)
        ensures
            final(self).quitting() == old(self).quitting(),
            final(self).view_state().moved_by(&old(self).view_state(), direction),
    {
        self.view.move_point(direction);
    }

    /// What the next refresh shows: a farewell once the user asked to quit;
    /// else the rows that are out of date, if any, and the caret's cell.
    pub fn refresh_screen(&mut self) -> (r: ScreenUpdate)
        ensures
            final(self).quitting() == old(self).quitting(),
            match r {
                ScreenUpdate::Farewell => old(self).quitting() && final(self).view_state() == old(
                    self,
                ).view_state(),
                ScreenUpdate::Draw { rows, caret } => {
                    &&& !old(self).quitting()
                    &&& final(self).view_state().rendered_from(&old(self).view_state(), rows)
                    &&& caret == final(self).view_state().caret_cell()
                },
            },
    {
        if self.should_quit {
            return ScreenUpdate::Farewell;
        }
        let rows = self.view.render();
        let caret = self.view.caret_postion();
        ScreenUpdate::Draw { rows, caret }
    }
}

} // verus!
