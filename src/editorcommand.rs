//! The commands that drive the viewer, and how input events map to them.

use vstd::prelude::*;

use crate::terminal::Size;

verus! {

/// A caret movement.
#[derive(Clone, Copy, Debug, PartialEq, Eq, Structural)]
pub enum Direction {
    Up,
    Down,
    Left,
    Right,
    PageUp,
    PageDown,
    LineStart,
    LineEnd,
}

/// What one input event asks the viewer to do.
#[derive(Clone, Copy, Debug, PartialEq, Eq, Structural)]
pub enum EditorCommand {
    Move(Direction),
    Resize(Size),
    Quit,
}

/// A key as the terminal reports it.
#[derive(Clone, Copy, Debug, PartialEq, Eq, Structural)]
pub enum Key {
    Char(char),
    Up,
    Down,
    Left,
    Right,
    PageUp,
    PageDown,
    Home,
    End,
    Other,
}

/// An input event as the terminal reports it.
#[derive(Clone, Copy, Debug, PartialEq, Eq, Structural)]
pub enum InputEvent {
    /// A key press; `control_only` holds when Ctrl is the one modifier held.
    Key { code: Key, control_only: bool },
    /// The terminal took a new size, in cells.
    Resize { width: u16, height: u16 },
    Other,
}

/// An input event that stands for no command.
#[derive(Clone, Copy, Debug, PartialEq, Eq, Structural)]
pub struct UnsupportedEvent;

/// The command an input event stands for, if any: Ctrl+Q quits, the arrow,
/// page and Home/End keys move the caret, and a new terminal size resizes.
pub open spec fn command_for(event: InputEvent) -> Option<EditorCommand> {
    match event {
        InputEvent::Key { code, control_only } => match code {
            Key::Char(c) => if c == 'q' && control_only {
                Some(EditorCommand::Quit)
            } else {
                None
            },
            Key::Up => Some(EditorCommand::Move(Direction::Up)),
            Key::Down => Some(EditorCommand::Move(Direction::Down)),
            Key::Left => Some(EditorCommand::Move(Direction::Left)),
            Key::Right => Some(EditorCommand::Move(Direction::Right)),
            Key::PageUp => Some(EditorCommand::Move(Direction::PageUp)),
            Key::PageDown => Some(EditorCommand::Move(Direction::PageDown)),
            Key::Home => Some(EditorCommand::Move(Direction::LineStart)),
            Key::End => Some(EditorCommand::Move(Direction::LineEnd)),
            Key::Other => None,
        },
        InputEvent::Resize { width, height } => Some(
            EditorCommand::Resize(Size { width: width as usize, height: height as usize }),
        ),
        InputEvent::Other => None,
    }
}

impl EditorCommand {
    /// The command `event` stands for, or `UnsupportedEvent`.
    pub fn from_input(event: InputEvent) -> (r: Result<EditorCommand, UnsupportedEvent>)
        ensures
            match command_for(event) {
                Some(c) => r == Ok::<EditorCommand, UnsupportedEvent>(c),
                None => r is Err,
            },
    {
        match event {
            InputEvent::Key { code, control_only } => match code {
                Key::Char(c) => {
                    if c == 'q' && control_only {
                        Ok(EditorCommand::Quit)
                    } else {
                        Err(UnsupportedEvent)
                    }
                },
                Key::Up => Ok(EditorCommand::Move(Direction::Up)),
                Key::Down => Ok(EditorCommand::Move(Direction::Down)),
                Key::Left => Ok(EditorCommand::Move(Direction::Left)),
                Key::Right => Ok(EditorCommand::Move(Direction::Right)),
                Key::PageUp => Ok(EditorCommand::Move(Direction::PageUp)),
                Key::PageDown => Ok(EditorCommand::Move(Direction::PageDown)),
                Key::Home => Ok(EditorCommand::Move(Direction::LineStart)),
                Key::End => Ok(EditorCommand::Move(Direction::LineEnd)),
                Key::Other => Err(UnsupportedEvent),
            },
            InputEvent::Resize { width, height } => Ok(
                EditorCommand::Resize(Size { width: width as usize, height: height as usize }),
            ),
            InputEvent::Other => Err(UnsupportedEvent),
        }
    }
}

} // verus!
