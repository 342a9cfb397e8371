use pomodoro_timer::timer::engine::PomodoroTimer;
use pomodoro_timer::timer::input::{InputHandler, Key, KeyPress, UserCommand};
use pomodoro_timer::timer::pomodoro::{Pomodoro, PomodoroError, TimerState};

fn timer(work: u16, short: u16, long: u16, cycles: u8) -> PomodoroTimer {
    PomodoroTimer::new(Pomodoro::new(work, short, long, cycles).unwrap())
}

fn press(c: char, ctrl: bool) -> KeyPress {
    KeyPress { key: Key::Char(c), ctrl }
}

#[test]
fn config_errors_name_the_first_zero_field() {
    assert_eq!(Pomodoro::new(0, 0, 0, 0).unwrap_err(), PomodoroError::InvalidWorkDuration);
    assert_eq!(Pomodoro::new(1, 0, 0, 0).unwrap_err(), PomodoroError::InvalidShortBreak);
    assert_eq!(Pomodoro::new(1, 1, 0, 0).unwrap_err(), PomodoroError::InvalidLongBreak);
    assert_eq!(Pomodoro::new(1, 1, 1, 0).unwrap_err(), PomodoroError::InvalidCycles);
    let p = Pomodoro::new(1500, 300, 900, 4).unwrap();
    assert_eq!(p.work_duration, 1500);
    assert_eq!(p.short_break_duration, 300);
    assert_eq!(p.long_break_duration, 900);
    assert_eq!(p.cycles, 4);
}

#[test]
fn format_time_pads_minutes_and_seconds() {
    let t = timer(5, 3, 7, 4);
    assert_eq!(t.format_time(0), "00:00");
    assert_eq!(t.format_time(59), "00:59");
    assert_eq!(t.format_time(125), "02:05");
    assert_eq!(t.format_time(600), "10:00");
    assert_eq!(t.format_time(1500), "25:00");
    assert_eq!(t.format_time(65535), "1092:15");
}

#[test]
fn state_names() {
    let mut t = timer(1, 1, 1, 2);
    assert_eq!(t.state_display(), "WORK");
    t.skip_phase();
    assert_eq!(t.state_display(), "SHORT BREAK");
    t.skip_phase();
    t.skip_phase();
    assert_eq!(t.state_display(), "LONG BREAK");
}

#[test]
fn status_line_shows_phase_time_cycle_and_pause() {
    let mut t = timer(5, 3, 7, 4);
    assert_eq!(t.current_cycle(), 1);
    assert_eq!(t.status_line(), "\r[WORK] 00:05 | Cycle 1/4 | RUNNING | (p)ause (s)kip (q)uit   ");
    t.pause();
    t.skip_phase();
    assert_eq!(t.current_cycle(), 1);
    assert_eq!(
        t.status_line(),
        "\r[SHORT BREAK] 00:03 | Cycle 1/4 | PAUSED | (p)ause (s)kip (q)uit   "
    );
}

#[test]
fn commands_change_the_timer() {
    let mut t = timer(5, 3, 7, 4);
    assert!(t.apply_command(UserCommand::NoCommand));
    assert_eq!(t.state(), TimerState::Work);
    assert!(!t.is_paused());
    assert!(t.apply_command(UserCommand::TogglePause));
    assert!(t.is_paused());
    assert!(t.apply_command(UserCommand::Skip));
    assert_eq!(t.state(), TimerState::ShortBreak);
    assert_eq!(t.remaining(), 3);
    assert!(t.is_paused());
    assert!(!t.apply_command(UserCommand::Quit));
    assert_eq!(t.state(), TimerState::ShortBreak);
}

#[test]
fn keys_map_to_commands() {
    assert_eq!(InputHandler::handle_key_event(press('p', false)), UserCommand::TogglePause);
    assert_eq!(InputHandler::handle_key_event(press('P', false)), UserCommand::TogglePause);
    assert_eq!(InputHandler::handle_key_event(press('p', true)), UserCommand::TogglePause);
    assert_eq!(InputHandler::handle_key_event(press('s', false)), UserCommand::Skip);
    assert_eq!(InputHandler::handle_key_event(press('S', false)), UserCommand::Skip);
    assert_eq!(InputHandler::handle_key_event(press('q', false)), UserCommand::Quit);
    assert_eq!(InputHandler::handle_key_event(press('Q', false)), UserCommand::Quit);
    assert_eq!(InputHandler::handle_key_event(press('c', true)), UserCommand::Quit);
    assert_eq!(InputHandler::handle_key_event(press('c', false)), UserCommand::NoCommand);
    assert_eq!(InputHandler::handle_key_event(press('C', true)), UserCommand::NoCommand);
    assert_eq!(InputHandler::handle_key_event(press('x', false)), UserCommand::NoCommand);
    assert_eq!(
        InputHandler::handle_key_event(KeyPress { key: Key::Other, ctrl: true }),
        UserCommand::NoCommand
    );
}

#[test]
fn paused_tick_changes_nothing() {
    let mut t = timer(2, 2, 2, 2);
    t.tick();
    t.tick();
    t.pause();
    for _ in 0..5 {
        t.tick();
    }
    assert_eq!(t.remaining(), 0);
    assert_eq!(t.state(), TimerState::Work);
    assert_eq!(t.cycles_completed(), 0);
    assert!(t.is_paused());
}

#[test]
fn phase_ends_one_tick_after_zero() {
    let mut t = timer(4, 2, 9, 3);
    for _ in 0..4 {
        t.tick();
    }
    assert_eq!(t.remaining(), 0);
    assert_eq!(t.state(), TimerState::Work);
    t.tick();
    assert_eq!(t.state(), TimerState::ShortBreak);
    assert_eq!(t.remaining(), 2);
}

#[test]
fn toggling_twice_gives_back_the_timer() {
    let mut t = timer(5, 3, 7, 4);
    t.tick();
    t.toggle_pause();
    t.toggle_pause();
    assert!(!t.is_paused());
    assert_eq!(t.remaining(), 4);
    assert_eq!(t.state(), TimerState::Work);
}

#[test]
fn session_sequence_by_skips() {
    let mut t = timer(1, 1, 1, 3);
    let mut expected = Vec::new();
    let mut seen = Vec::new();
    for k in 1..=6u8 {
        t.skip_phase();
        seen.push((t.state(), t.cycles_completed()));
        expected.push((
            if k % 3 == 0 { TimerState::LongBreak } else { TimerState::ShortBreak },
            k,
        ));
        t.skip_phase();
        assert_eq!(t.state(), TimerState::Work);
        assert_eq!(t.cycles_completed(), k);
    }
    assert_eq!(seen, expected);
}

#[test]
fn remaining_stays_within_phase() {
    let mut t = timer(3, 2, 5, 2);
    for _ in 0..40 {
        let limit = match t.state() {
            TimerState::Work => 3,
            TimerState::ShortBreak => 2,
            TimerState::LongBreak => 5,
        };
        assert!(t.remaining() <= limit);
        t.tick();
    }
}

#[test]
fn phase_change_is_defined_until_the_count_is_full() {
    let mut t = timer(1, 1, 1, 1);
    for _ in 0..254 {
        t.skip_phase();
        t.skip_phase();
    }
    assert_eq!(t.cycles_completed(), 254);
    assert!(t.is_advance_defined());
    t.skip_phase();
    assert_eq!(t.state(), TimerState::LongBreak);
    assert!(t.is_advance_defined());
    t.skip_phase();
    assert_eq!(t.state(), TimerState::Work);
    assert_eq!(t.cycles_completed(), 255);
    assert!(!t.is_advance_defined());
    assert!(t.is_tick_defined());
    t.tick();
    assert!(!t.is_tick_defined());
}

#[test]
fn zero_cycles_config_cannot_leave_work() {
    let p = Pomodoro { work_duration: 1, short_break_duration: 1, long_break_duration: 1, cycles: 0 };
    let mut t = PomodoroTimer::new(p);
    assert!(t.is_tick_defined());
    t.tick();
    assert!(!t.is_tick_defined());
    assert!(!t.is_advance_defined());
}

#[test]
fn sessions_over_a_mixed_run() {
    let mut t = timer(2, 1, 3, 2);
    let mut log = vec![t.state()];
    let mut ended = 0u8;
    for i in 0..60u32 {
        let before = t.state();
        match i % 7 {
            0 => t.pause(),
            1 => t.resume(),
            2 => t.toggle_pause(),
            3 => t.toggle_pause(),
            4 => t.skip_phase(),
            _ => t.tick(),
        }
        if t.state() != before {
            if before == TimerState::Work {
                ended += 1;
            }
            log.push(t.state());
        }
        assert_eq!(t.cycles_completed(), ended);
    }
    assert!(ended >= 4);
    for (i, s) in log.iter().enumerate() {
        assert_eq!(*s == TimerState::Work, i % 2 == 0);
        if i % 2 == 1 {
            let j = (i + 1) / 2;
            assert_eq!(*s == TimerState::LongBreak, j % 2 == 0);
        }
    }
}
