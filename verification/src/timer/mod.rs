pub mod pomodoro;
pub mod engine;
pub mod input;
pub mod laws;

pub use pomodoro::{Pomodoro, PomodoroError, TimerState};
pub use engine::{PomodoroTimer, TimerView};
pub use input::{InputHandler, Key, KeyPress, UserCommand};
