use vstd::prelude::*;

verus! {

/// Represents user input commands
#[derive(Debug, Clone, Copy, PartialEq, Eq, Structural)]
pub enum UserCommand {
    /// Toggle pause/resume
    TogglePause,
    /// Skip to the next phase
    Skip,
    /// Quit the application
    Quit,
    /// No command
    NoCommand,
}

/// The key of a key press, as far as the timer reads it.
#[derive(Debug, Clone, Copy, PartialEq, Eq, Structural)]
pub enum Key {
    /// A character key.
    Char(char),
    /// Any other key (arrows, function keys, ...).
    Other,
}

/// A key press: the key and whether Control was held.
#[derive(Debug, Clone, Copy, PartialEq, Eq, Structural)]
pub struct KeyPress {
    pub key: Key,
    pub ctrl: bool,
}

/// Maps key presses to commands.
pub struct InputHandler;

/// The command a key press stands for: `p`/`P` toggles the pause, `s`/`S`
/// skips, `q`/`Q` and Ctrl+`c` quit, every other key means nothing.
pub open spec fn command_for(press: KeyPress) -> UserCommand {
    match press.key {
        Key::Char(c) => {
            if c == 'p' || c == 'P' {
                UserCommand::TogglePause
            } else if c == 's' || c == 'S' {
                UserCommand::Skip
            } else if c == 'q' || c == 'Q' {
                UserCommand::Quit
            } else if c == 'c' && press.ctrl {
                UserCommand::Quit
            } else {
                UserCommand::NoCommand
            }
        },
        Key::Other => UserCommand::NoCommand,
    }
}

impl InputHandler {
    /// Handle a single key event
    pub fn handle_key_event(key_event: KeyPress) -> (cmd: UserCommand)
        ensures
            cmd == command_for(key_event),
            key_event.key is Other ==> cmd == UserCommand::NoCommand,
            cmd == UserCommand::TogglePause <==> (key_event.key == Key::Char('p') || key_event.key
                == Key::Char('P')),
            cmd == UserCommand::Skip <==> (key_event.key == Key::Char('s') || key_event.key
                == Key::Char('S')),
            cmd == UserCommand::Quit <==> (key_event.key == Key::Char('q') || key_event.key
                == Key::Char('Q') || (key_event.key == Key::Char('c') && key_event.ctrl)),
    {
        match key_event.key {
            // Toggle pause/resume with 'p'
            Key::Char('p') | Key::Char('P') => UserCommand::TogglePause,
            // Skip with 's'
            Key::Char('s') | Key::Char('S') => UserCommand::Skip,
            // Quit with 'q' or 'Q'
            Key::Char('q') | Key::Char('Q') => UserCommand::Quit,
            // Quit with Ctrl+C
            Key::Char('c') if key_event.ctrl => UserCommand::Quit,
            _ => UserCommand::NoCommand,
        }
    }
}

} // verus!
