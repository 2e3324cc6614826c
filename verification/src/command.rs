//! The command surface: which key asks for which command, what a command
//! does to the session's settings, and what a paste adds to the board.

use vstd::prelude::*;
use crate::board::Colour;
use crate::reference::{classify, ImageType};

verus! {

/// The keys that the session tells apart.
#[derive(Debug, Clone, Copy, PartialEq, Eq, Structural)]
pub enum Key {
    A,
    S,
    X,
    Tab,
    Space,
    D,
    H,
    Escape,
    /// Any other key.
    Other,
}

/// One press of a key.
#[derive(Debug, Clone, Copy, PartialEq, Eq, Structural)]
pub struct KeyPress {
    pub key: Key,
    /// The press repeats a key that is held down.
    pub repeated: bool,
    /// No modifier key is down.
    pub unmodified: bool,
}

/// What the user can ask of the session.
#[derive(Debug, Clone, Copy, PartialEq, Eq, Structural)]
pub enum Command {
    AddFromClipboard,
    Save,
    RemoveSelected,
    ToggleColourScheme,
    ToggleDebugBounds,
    ToggleSelectionInfo,
    Help,
    Quit,
}

/// The colour scheme.
#[derive(Debug, Clone, Copy, PartialEq, Eq, Structural)]
pub enum Mode {
    Light,
    Dark,
}

/// The settings of a session.
#[derive(Debug, Clone, Copy, PartialEq, Eq, Structural)]
pub struct BoardAppState {
    pub mode: Mode,
    /// The bounds of the items are drawn.
    pub draw_bounds: bool,
    /// The lines from the last press to the pointer are drawn.
    pub draw_selection_info: bool,
}

/// What a paste adds to the board.
#[derive(Debug, PartialEq, Eq)]
pub enum Paste {
    /// The pasted text itself.
    Text,
    /// The image that the pasted text refers to.
    Image(ImageType),
}

/// The command that a press asks for. A repeated press asks for nothing, and
/// the colour scheme changes only on an unmodified press.
pub open spec fn command_of(press: KeyPress) -> Option<Command> {
    if press.repeated {
        None
    } else {
        match press.key {
            Key::A => Some(Command::AddFromClipboard),
            Key::S => Some(Command::Save),
            Key::X => Some(Command::RemoveSelected),
            Key::Tab => if press.unmodified {
                Some(Command::ToggleColourScheme)
            } else {
                None
            },
            Key::Space => Some(Command::ToggleDebugBounds),
            Key::D => Some(Command::ToggleSelectionInfo),
            Key::H => Some(Command::Help),
            Key::Escape => Some(Command::Quit),
            Key::Other => None,
        }
    }
}

/// The other colour scheme.
pub open spec fn flipped(mode: Mode) -> Mode {
    match mode {
        Mode::Light => Mode::Dark,
        Mode::Dark => Mode::Light,
    }
}

/// The colour of the background in a colour scheme.
pub open spec fn background_of(mode: Mode) -> Colour {
    match mode {
        Mode::Light => Colour::Light,
        Mode::Dark => Colour::Dark,
    }
}

/// The colours of the background and of the text in a colour scheme.
pub open spec fn colours_of(mode: Mode) -> (Colour, Colour) {
    (background_of(mode), background_of(flipped(mode)))
}

/// The settings as a command leaves them. Only the three toggles change
/// them.
pub open spec fn applied(state: BoardAppState, command: Command) -> BoardAppState {
    match command {
        Command::ToggleColourScheme => BoardAppState { mode: flipped(state.mode), ..state },
        Command::ToggleDebugBounds => BoardAppState { draw_bounds: !state.draw_bounds, ..state },
        Command::ToggleSelectionInfo => BoardAppState {
            draw_selection_info: !state.draw_selection_info,
            ..state
        },
        _ => state,
    }
}

/// The log is rewritten when the user asks for it and before the session
/// ends.
pub open spec fn saves(command: Command) -> bool {
    command == Command::Save || command == Command::Quit
}

/// What a paste of `contents` adds: the image that the text refers to, or
/// the text itself where it refers to none or where the user asks for text.
pub open spec fn pastes_image(contents: Seq<char>, as_text: bool) -> bool {
    !as_text && classify(contents) is Some
}

impl Default for BoardAppState {
    /// The light scheme, with nothing extra drawn.
    fn default() -> (r: BoardAppState)
        ensures
            r == (BoardAppState {
                mode: Mode::Light,
                draw_bounds: false,
                draw_selection_info: false,
            }),
    {
        BoardAppState { mode: Mode::Light, draw_bounds: false, draw_selection_info: false }
    }
}

impl Command {
    /// Whether the command rewrites the log.
    pub fn saves(self) -> (b: bool)
        ensures
            b == saves(self),
    {
        match self {
            Command::Save => true,
            Command::Quit => true,
            _ => false,
        }
    }
}

impl BoardAppState {
    /// The colour of the background.
    pub fn background_colour(&self) -> (c: Colour)
        ensures
            c == background_of(self.mode),
    {
        match self.mode {
            Mode::Light => Colour::Light,
            Mode::Dark => Colour::Dark,
        }
    }

    /// Changes to the other colour scheme. The result holds the board's new
    /// colours, background first; messages are shown in the second.
    pub fn switch_colours(&mut self) -> (c: (Colour, Colour))
        ensures
            *final(self) == applied(*old(self), Command::ToggleColourScheme),
            c == colours_of(final(self).mode),
    {
        match self.mode {
            Mode::Light => {
                self.mode = Mode::Dark;
                (Colour::Dark, Colour::Light)
            },
            Mode::Dark => {
                self.mode = Mode::Light;
                (Colour::Light, Colour::Dark)
            },
        }
    }

    /// Applies a command to the settings.
    pub fn apply(&mut self, command: Command)
        ensures
            *final(self) == applied(*old(self), command),
    {
        match command {
            Command::ToggleColourScheme => {
                self.switch_colours();
            },
            Command::ToggleDebugBounds => {
                self.draw_bounds = !self.draw_bounds;
            },
            Command::ToggleSelectionInfo => {
                self.draw_selection_info = !self.draw_selection_info;
            },
            _ => {},
        }
    }

    /// One press of a key: the settings change as the command that it asks
    /// for says, and the command is handed to the caller, who does the rest.
    pub fn key_down(&mut self, press: KeyPress) -> (command: Option<Command>)
        ensures
            command == command_of(press),
            *final(self) == (match command_of(press) {
                Some(c) => applied(*old(self), c),
                None => *old(self),
            }),
    {
        let command = command_for(press);
        match command {
            Some(c) => {
                self.apply(c);
            },
            None => {},
        }
        command
    }
}

/// The command that a press asks for.
pub fn command_for(press: KeyPress) -> (command: Option<Command>)
    ensures
        command == command_of(press),
{
    if press.repeated {
        return None;
    }
    match press.key {
        Key::A => Some(Command::AddFromClipboard),
        Key::S => Some(Command::Save),
        Key::X => Some(Command::RemoveSelected),
        Key::Tab => {
            if press.unmodified {
                Some(Command::ToggleColourScheme)
            } else {
                None
            }
        },
        Key::Space => Some(Command::ToggleDebugBounds),
        Key::D => Some(Command::ToggleSelectionInfo),
        Key::H => Some(Command::Help),
        Key::Escape => Some(Command::Quit),
        Key::Other => None,
    }
}

/// What a paste of `contents` adds to the board. With `as_text` the user
/// asks for the text itself whatever it refers to.
pub fn paste(contents: &str, as_text: bool) -> (r: Paste)
    ensures
        match r {
            Paste::Image(kind) => pastes_image(contents@, as_text) && classify(contents@) == Some(
                kind@,
            ),
            Paste::Text => !pastes_image(contents@, as_text),
        },
{
    if as_text {
        return Paste::Text;
    }
    match ImageType::classify(contents) {
        Some(kind) => Paste::Image(kind),
        None => Paste::Text,
    }
}

/// Changing the colour scheme twice gives the first scheme again, and the
/// text never has the colour of the background.
pub proof fn lemma_flipped_twice(mode: Mode)
    ensures
        flipped(flipped(mode)) == mode,
        colours_of(mode).0 != colours_of(mode).1,
{
}

} // verus!
