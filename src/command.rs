//! Editor commands, and their decoding from abstract input events.
use crate::view::Size;
use vstd::prelude::*;

verus! {

#[derive(Clone, Copy, Debug, PartialEq, Eq, Structural)]
pub enum Direction {
    Up,
    Down,
    Left,
    Right,
    PageUp,
    PageDown,
    Home,
    End,
}

#[derive(Clone, Copy, Debug, PartialEq, Eq, Structural)]
pub enum SpecialKey {
    Backspace,
    Delete,
    Enter,
    Tab,
    BackTab,
    CapsLock,
    Insert,
}

/// A key as the terminal reports it.
#[derive(Clone, Copy, Debug, PartialEq, Eq, Structural)]
pub enum Key {
    Left,
    Right,
    Up,
    Down,
    Home,
    End,
    PageUp,
    PageDown,
    Char(char),
    F(u8),
    Backspace,
    Delete,
    Enter,
    Tab,
    BackTab,
    CapsLock,
    Insert,
    Other,
}

/// One input event: a key press (with whether Control was held), a new
/// terminal size, or anything else.
#[derive(Clone, Copy, Debug, PartialEq, Eq, Structural)]
pub enum InputEvent {
    Key { key: Key, control: bool },
    Resize { width: u16, height: u16 },
    Other,
}

#[derive(Clone, Copy, Debug, PartialEq, Eq, Structural)]
pub enum TerminalCommand {
    MoveCaret(Direction),
    Resize(Size),
    Quit,
    Unknown,
    OrdinaryChar(char),
    FunctionKey(u8),
    SpecialKey(SpecialKey),
}

/// The command a key press stands for.
pub open spec fn key_command(key: Key, control: bool) -> TerminalCommand {
    match key {
        Key::Left => TerminalCommand::MoveCaret(Direction::Left),
        Key::Right => TerminalCommand::MoveCaret(Direction::Right),
        Key::Up => TerminalCommand::MoveCaret(Direction::Up),
        Key::Down => TerminalCommand::MoveCaret(Direction::Down),
        Key::Home => TerminalCommand::MoveCaret(Direction::Home),
        Key::End => TerminalCommand::MoveCaret(Direction::End),
        Key::PageUp => TerminalCommand::MoveCaret(Direction::PageUp),
        Key::PageDown => TerminalCommand::MoveCaret(Direction::PageDown),
        Key::Char(c) => if c == 'q' && control {
            TerminalCommand::Quit
        } else {
            TerminalCommand::OrdinaryChar(c)
        },
        Key::F(n) => if 1 <= n <= 12 {
            TerminalCommand::FunctionKey(n)
        } else {
            TerminalCommand::Unknown
        },
        Key::Backspace => TerminalCommand::SpecialKey(SpecialKey::Backspace),
        Key::Delete => TerminalCommand::SpecialKey(SpecialKey::Delete),
        Key::Enter => TerminalCommand::SpecialKey(SpecialKey::Enter),
        Key::Tab => TerminalCommand::SpecialKey(SpecialKey::Tab),
        Key::BackTab => TerminalCommand::SpecialKey(SpecialKey::BackTab),
        Key::CapsLock => TerminalCommand::SpecialKey(SpecialKey::CapsLock),
        Key::Insert => TerminalCommand::SpecialKey(SpecialKey::Insert),
        Key::Other => TerminalCommand::Unknown,
    }
}

impl TerminalCommand {
    /// Classifies an input event; an event that is neither a key press nor
    /// a resize cannot be decoded.
    pub fn try_from(event: InputEvent) -> (r: Result<TerminalCommand, String>)
        ensures
            match event {
                InputEvent::Key { key, control } => r == Ok::<TerminalCommand, String>(key_command(key, control)),
                InputEvent::Resize { width, height } => r == Ok::<TerminalCommand, String>(
                    TerminalCommand::Resize(Size { width: width as usize, height: height as usize }),
                ),
                InputEvent::Other => r is Err,
            },
    {
        match event {
            InputEvent::Key { key, control } => {
                let command = match key {
                    Key::Left => TerminalCommand::MoveCaret(Direction::Left),
                    Key::Right => TerminalCommand::MoveCaret(Direction::Right),
                    Key::Up => TerminalCommand::MoveCaret(Direction::Up),
                    Key::Down => TerminalCommand::MoveCaret(Direction::Down),
                    Key::Home => TerminalCommand::MoveCaret(Direction::Home),
                    Key::End => TerminalCommand::MoveCaret(Direction::End),
                    Key::PageUp => TerminalCommand::MoveCaret(Direction::PageUp),
                    Key::PageDown => TerminalCommand::MoveCaret(Direction::PageDown),
                    Key::Char(c) => if c == 'q' && control {
                        TerminalCommand::Quit
                    } else {
                        TerminalCommand::OrdinaryChar(c)
                    },
                    Key::F(n) => if 1 <= n && n <= 12 {
                        TerminalCommand::FunctionKey(n)
                    } else {
                        TerminalCommand::Unknown
                    },
                    Key::Backspace => TerminalCommand::SpecialKey(SpecialKey::Backspace),
                    Key::Delete => TerminalCommand::SpecialKey(SpecialKey::Delete),
                    Key::Enter => TerminalCommand::SpecialKey(SpecialKey::Enter),
                    Key::Tab => TerminalCommand::SpecialKey(SpecialKey::Tab),
                    Key::BackTab => TerminalCommand::SpecialKey(SpecialKey::BackTab),
                    Key::CapsLock => TerminalCommand::SpecialKey(SpecialKey::CapsLock),
                    Key::Insert => TerminalCommand::SpecialKey(SpecialKey::Insert),
                    Key::Other => TerminalCommand::Unknown,
                };
                Ok(command)
            },
            InputEvent::Resize { width, height } => {
                Ok(TerminalCommand::Resize(Size { width: width as usize, height: height as usize }))
            },
            InputEvent::Other => Err(String::from_str("unsupported input event")),
        }
    }
}

} // verus!
