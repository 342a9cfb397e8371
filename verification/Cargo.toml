[package]
name = "pomodoro_timer"
version = "0.1.0"
edition = "2021"
publish = false

[dependencies]
crossterm = "0.27"
tokio = { version = "1", features = ["macros", "rt-multi-thread", "time"] }
