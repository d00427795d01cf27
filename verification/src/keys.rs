//! Keys as the terminal reports them, and what each one asks of the client.

use vstd::prelude::*;

verus! {

/// A key press, reduced to what the client tells apart.
#[derive(Clone, Copy, Debug, PartialEq, Eq, Structural)]
pub enum Key {
    /// A character key, with the character it produces.
    Char(char),
    /// The page-up key.
    PageUp,
    /// The page-down key.
    PageDown,
    /// The enter key.
    Enter,
    /// The backspace key.
    Backspace,
    /// Any other key.
    Other,
}

/// What a key press asks the client to do.
#[derive(Clone, Copy, Debug, PartialEq, Eq, Structural)]
pub enum Command {
    /// Leave the program.
    Quit,
    /// Move the body one line towards the top.
    ScrollUp,
    /// Move the body one line towards the bottom.
    ScrollDown,
    /// Fetch the page named in the input buffer.
    Confirm,
    /// Remove the last character of the input buffer.
    Erase,
    /// Append a character to the input buffer.
    Insert(char),
    /// Do nothing.
    Ignore,
}

/// An item of the stream that the input source hands to the event loop.
#[derive(Clone, Copy, Debug, PartialEq, Eq)]
pub enum Event<I> {
    /// A key was pressed.
    Input(I),
    /// A tick interval passed.
    Tick,
}

/// The character that leaves the program instead of being typed.
pub const QUIT_CHAR: char = 'q';

/// The key bindings: `q` quits, page-up and page-down scroll, enter
/// confirms, backspace erases, every other character is typed, and all
/// remaining keys are ignored.
pub open spec fn command_of(key: Key) -> Command {
    match key {
        Key::Char(c) => if c == QUIT_CHAR {
            Command::Quit
        } else {
            Command::Insert(c)
        },
        Key::PageUp => Command::ScrollUp,
        Key::PageDown => Command::ScrollDown,
        Key::Enter => Command::Confirm,
        Key::Backspace => Command::Erase,
        Key::Other => Command::Ignore,
    }
}

impl Key {
    /// Looks the key up in the key bindings.
    pub fn command(self) -> (c: Command)
        ensures
            c == command_of(self),
    {
        match self {
            Key::Char(c) => {
                if c == QUIT_CHAR {
                    Command::Quit
                } else {
                    Command::Insert(c)
                }
            },
            Key::PageUp => Command::ScrollUp,
            Key::PageDown => Command::ScrollDown,
            Key::Enter => Command::Confirm,
            Key::Backspace => Command::Erase,
            Key::Other => Command::Ignore,
        }
    }
}

} // verus!
