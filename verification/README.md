# pomodoro_timer

A Pomodoro timer whose logic is verified with Verus.

- `src/timer/pomodoro.rs`: the configuration (`Pomodoro`, validated by
  `Pomodoro::new`) and the phases (`TimerState`).
- `src/timer/engine.rs`: `PomodoroTimer`, its abstract view `TimerView`, the
  spec functions that define a tick and a phase change, the clock and status
  line text, and the handling of the loop's commands.
- `src/timer/input.rs`: the mapping from key presses to `UserCommand`.
- `src/timer/laws.rs`: properties over several operations (countdown length,
  phase alternation, long breaks every N sessions, pause behaviour).
- `app/main.rs`: the terminal program (raw mode, key polling, the loop).
