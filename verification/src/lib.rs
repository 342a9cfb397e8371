//! A Pomodoro timer: configuration, phase state machine and key mapping.
pub mod timer;
