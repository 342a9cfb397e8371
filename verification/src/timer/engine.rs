use vstd::prelude::*;
use vstd::string::*;

use crate::timer::input::UserCommand;
use crate::timer::pomodoro::{Pomodoro, TimerState};

verus! {

/// What can be observed of a timer: its configuration, the seconds left in
/// the current phase, the number of finished work sessions, the phase and
/// whether it is paused.
pub struct TimerView {
    pub pomodoro: Pomodoro,
    pub remaining: u16,
    pub cycles_completed: u8,
    pub state: TimerState,
    pub paused: bool,
}

/// The length, in seconds, of phase `state` under configuration `p`.
pub open spec fn phase_duration(p: Pomodoro, state: TimerState) -> u16 {
    match state {
        TimerState::Work => p.work_duration,
        TimerState::ShortBreak => p.short_break_duration,
        TimerState::LongBreak => p.long_break_duration,
    }
}

/// A phase change from `v` is defined: leaving a work session counts it in a
/// `u8` and picks the break by a remainder modulo `cycles`.
pub open spec fn can_advance(v: TimerView) -> bool {
    v.state is Work ==> v.pomodoro.cycles > 0 && v.cycles_completed < 255
}

/// The timer after its current phase ends. A finished work session is counted
/// and followed by a long break when the count is a multiple of `cycles`, by a
/// short break otherwise; a break is followed by a work session. The new phase
/// starts with its full duration; the pause flag is kept.
pub open spec fn advanced(v: TimerView) -> TimerView {
    match v.state {
        TimerState::Work => {
            let done = (v.cycles_completed + 1) as u8;
            if done % v.pomodoro.cycles == 0 {
                TimerView {
                    pomodoro: v.pomodoro,
                    remaining: v.pomodoro.long_break_duration,
                    cycles_completed: done,
                    state: TimerState::LongBreak,
                    paused: v.paused,
                }
            } else {
                TimerView {
                    pomodoro: v.pomodoro,
                    remaining: v.pomodoro.short_break_duration,
                    cycles_completed: done,
                    state: TimerState::ShortBreak,
                    paused: v.paused,
                }
            }
        },
        _ => TimerView {
            pomodoro: v.pomodoro,
            remaining: v.pomodoro.work_duration,
            cycles_completed: v.cycles_completed,
            state: TimerState::Work,
            paused: v.paused,
        },
    }
}

/// A tick from `v` is defined: it only changes phase when running at zero.
pub open spec fn can_tick(v: TimerView) -> bool {
    v.paused || v.remaining > 0 || can_advance(v)
}

/// The timer after one tick: nothing changes while paused; otherwise one
/// second is taken off, and at zero the phase ends instead.
pub open spec fn ticked(v: TimerView) -> TimerView {
    if v.paused {
        v
    } else if v.remaining > 0 {
        TimerView {
            pomodoro: v.pomodoro,
            remaining: (v.remaining - 1) as u16,
            cycles_completed: v.cycles_completed,
            state: v.state,
            paused: v.paused,
        }
    } else {
        advanced(v)
    }
}

/// `v` with its pause flag set to `paused` and all else kept.
pub open spec fn with_paused(v: TimerView, paused: bool) -> TimerView {
    TimerView {
        pomodoro: v.pomodoro,
        remaining: v.remaining,
        cycles_completed: v.cycles_completed,
        state: v.state,
        paused,
    }
}

/// A timer as it is created from configuration `p`.
pub open spec fn started(p: Pomodoro) -> TimerView {
    TimerView {
        pomodoro: p,
        remaining: p.work_duration,
        cycles_completed: 0,
        state: TimerState::Work,
        paused: false,
    }
}

/// The decimal digit `d` (for `d < 10`) as a character.
pub open spec fn digit_char(d: nat) -> char {
    if d == 0 {
        '0'
    } else if d == 1 {
        '1'
    } else if d == 2 {
        '2'
    } else if d == 3 {
        '3'
    } else if d == 4 {
        '4'
    } else if d == 5 {
        '5'
    } else if d == 6 {
        '6'
    } else if d == 7 {
        '7'
    } else if d == 8 {
        '8'
    } else {
        '9'
    }
}

/// `c` is one of the characters `0` to `9`.
pub open spec fn is_digit(c: char) -> bool {
    c == '0' || c == '1' || c == '2' || c == '3' || c == '4' || c == '5' || c == '6' || c == '7'
        || c == '8' || c == '9'
}

/// The value of decimal digit `c`.
pub open spec fn digit_value(c: char) -> int {
    if c == '1' {
        1
    } else if c == '2' {
        2
    } else if c == '3' {
        3
    } else if c == '4' {
        4
    } else if c == '5' {
        5
    } else if c == '6' {
        6
    } else if c == '7' {
        7
    } else if c == '8' {
        8
    } else if c == '9' {
        9
    } else {
        0
    }
}

/// Every character of `s` is a decimal digit.
pub open spec fn all_digits(s: Seq<char>) -> bool {
    forall|i: int| 0 <= i < s.len() ==> is_digit(#[trigger] s[i])
}

/// The number that the digits `s` read as, most significant first.
pub open spec fn read_decimal(s: Seq<char>) -> int
    decreases s.len(),
{
    if s.len() == 0 {
        0
    } else {
        read_decimal(s.drop_last()) * 10 + digit_value(s.last())
    }
}

/// The decimal notation of `n`, without leading zeros.
pub open spec fn decimal(n: nat) -> Seq<char>
    decreases n,
{
    if n < 10 {
        seq![digit_char(n)]
    } else {
        decimal(n / 10) + seq![digit_char(n % 10)]
    }
}

/// The decimal notation of `n`, padded with zeros to at least two digits.
pub open spec fn two_digits(n: nat) -> Seq<char> {
    if n < 10 {
        seq!['0'] + decimal(n)
    } else {
        decimal(n)
    }
}

/// `seconds` written as minutes and seconds, `MM:SS`.
pub open spec fn clock_text(seconds: nat) -> Seq<char> {
    two_digits(seconds / 60) + seq![':'] + two_digits(seconds % 60)
}

/// The name under which a phase is shown.
pub open spec fn state_name(state: TimerState) -> Seq<char> {
    match state {
        TimerState::Work => "WORK"@,
        TimerState::ShortBreak => "SHORT BREAK"@,
        TimerState::LongBreak => "LONG BREAK"@,
    }
}

/// The number of the cycle shown: the session under way while working, the
/// one just finished during a break.
pub open spec fn shown_cycle(v: TimerView) -> int {
    if v.state is Work {
        v.cycles_completed + 1
    } else {
        v.cycles_completed as int
    }
}

/// The status line redrawn on each round of the interactive loop.
pub open spec fn status_text(v: TimerView) -> Seq<char> {
    "\r["@ + state_name(v.state) + "] "@ + clock_text(v.remaining as nat) + " | Cycle "@
        + decimal(shown_cycle(v) as nat) + "/"@ + decimal(v.pomodoro.cycles as nat) + " | "@
        + (if v.paused { "PAUSED"@ } else { "RUNNING"@ }) + " | (p)ause (s)kip (q)uit   "@
}

/// The timer after the interactive loop handles command `cmd`.
pub open spec fn after_command(v: TimerView, cmd: UserCommand) -> TimerView {
    match cmd {
        UserCommand::TogglePause => with_paused(v, !v.paused),
        UserCommand::Skip => advanced(v),
        _ => v,
    }
}

/// `t` is `seconds` written as `MM:SS`: the minutes `seconds / 60` in at
/// least two digits, a colon, and exactly two digits for `seconds % 60`.
pub open spec fn reads_as_clock(t: Seq<char>, seconds: nat) -> bool {
    let l = t.len() as int;
    &&& l >= 5
    &&& t[l - 3] == ':'
    &&& all_digits(t.subrange(l - 2, l))
    &&& read_decimal(t.subrange(l - 2, l)) == seconds % 60
    &&& all_digits(t.subrange(0, l - 3))
    &&& read_decimal(t.subrange(0, l - 3)) == seconds / 60
    &&& (seconds / 60 < 100 ==> l == 5)
}

proof fn lemma_digit(d: nat)
    requires
        d < 10,
    ensures
        is_digit(digit_char(d)),
        digit_value(digit_char(d)) == d,
        (digit_char(d) == '0') == (d == 0),
{
}

/// A number written in decimal is a non-empty run of digits that reads back
/// as the number, with no leading zero.
pub proof fn law_decimal_reads_back(n: nat)
    ensures
        decimal(n).len() >= 1,
        all_digits(decimal(n)),
        read_decimal(decimal(n)) == n,
        n >= 1 ==> decimal(n)[0] != '0',
        n < 10 ==> decimal(n).len() == 1,
        10 <= n < 100 ==> decimal(n).len() == 2,
        n >= 10 ==> decimal(n).len() >= 2,
    decreases n,
{
    let d = decimal(n);
    if n >= 10 {
        law_decimal_reads_back(n / 10);
        lemma_digit(n % 10);
        assert(d.drop_last() =~= decimal(n / 10));
        assert(d.last() == digit_char(n % 10));
        assert(read_decimal(d) == read_decimal(decimal(n / 10)) * 10 + digit_value(d.last()));
        assert((n / 10) * 10 + n % 10 == n);
        assert(d[0] == decimal(n / 10)[0]);
        assert forall|i: int| 0 <= i < d.len() implies is_digit(#[trigger] d[i]) by {
            if i < d.len() - 1 {
                assert(d[i] == decimal(n / 10)[i]);
            }
        }
    } else {
        lemma_digit(n);
        assert(d.drop_last() =~= Seq::<char>::empty());
        assert(read_decimal(Seq::<char>::empty()) == 0);
        assert(read_decimal(d) == read_decimal(d.drop_last()) * 10 + digit_value(d.last()));
        assert forall|i: int| 0 <= i < d.len() implies is_digit(#[trigger] d[i]) by {}
    }
}

/// A number padded to two digits is a run of at least two digits (exactly
/// two below 100) that reads back as the number.
pub proof fn law_two_digits_reads_back(n: nat)
    ensures
        two_digits(n).len() >= 2,
        n < 100 ==> two_digits(n).len() == 2,
        all_digits(two_digits(n)),
        read_decimal(two_digits(n)) == n,
{
    law_decimal_reads_back(n);
    let t = two_digits(n);
    if n < 10 {
        lemma_digit(n);
        assert(t =~= seq!['0', digit_char(n)]);
        assert(t.drop_last() =~= seq!['0']);
        assert(t.drop_last().drop_last() =~= Seq::<char>::empty());
        assert(read_decimal(Seq::<char>::empty()) == 0);
        assert(read_decimal(t.drop_last()) == read_decimal(t.drop_last().drop_last()) * 10
            + digit_value('0'));
        assert(read_decimal(t.drop_last()) == 0);
        assert(read_decimal(t) == read_decimal(t.drop_last()) * 10 + digit_value(t.last()));
        assert forall|i: int| 0 <= i < t.len() implies is_digit(#[trigger] t[i]) by {}
    }
}

/// The clock text of any number of seconds is `MM:SS` as `reads_as_clock`
/// describes it.
pub proof fn law_clock_text_reads_as_clock(seconds: nat)
    ensures
        reads_as_clock(clock_text(seconds), seconds),
{
    let m = two_digits(seconds / 60);
    let sec = two_digits(seconds % 60);
    law_two_digits_reads_back(seconds / 60);
    law_two_digits_reads_back(seconds % 60);
    let t = clock_text(seconds);
    let l = t.len() as int;
    assert(l == m.len() + 3);
    assert(t.subrange(l - 2, l) =~= sec);
    assert(t.subrange(0, l - 3) =~= m);
    assert(t[l - 3] == ':');
}

/// The one-character string of decimal digit `d`.
fn digit_str(d: u16) -> (s: &'static str)
    requires
        d < 10,
    ensures
        s@ == seq![digit_char(d as nat)],
{
    proof {
        reveal_strlit("0");
        reveal_strlit("1");
        reveal_strlit("2");
        reveal_strlit("3");
        reveal_strlit("4");
        reveal_strlit("5");
        reveal_strlit("6");
        reveal_strlit("7");
        reveal_strlit("8");
        reveal_strlit("9");
    }
    if d == 0 {
        "0"
    } else if d == 1 {
        "1"
    } else if d == 2 {
        "2"
    } else if d == 3 {
        "3"
    } else if d == 4 {
        "4"
    } else if d == 5 {
        "5"
    } else if d == 6 {
        "6"
    } else if d == 7 {
        "7"
    } else if d == 8 {
        "8"
    } else {
        "9"
    }
}

/// Appends the decimal notation of `n`.
fn push_decimal(s: &mut String, n: u16)
    ensures
        final(s)@ == old(s)@ + decimal(n as nat),
    decreases n,
{
    if n >= 10 {
        push_decimal(s, n / 10);
    }
    let ghost mid = s@;
    s.append(digit_str(n % 10));
    proof {
        if n >= 10 {
            assert(mid == old(s)@ + decimal((n / 10) as nat));
            assert(s@ =~= old(s)@ + decimal(n as nat));
        } else {
            assert(s@ =~= old(s)@ + decimal(n as nat));
        }
    }
}

/// Appends `n` with at least two digits.
fn push_two_digits(s: &mut String, n: u16)
    ensures
        final(s)@ == old(s)@ + two_digits(n as nat),
{
    if n < 10 {
        s.append("0");
        proof {
            reveal_strlit("0");
        }
    }
    push_decimal(s, n);
    assert(s@ =~= old(s)@ + two_digits(n as nat));
}

/// A Pomodoro countdown that alternates work sessions and breaks.
pub struct PomodoroTimer {
    pomodoro: Pomodoro,
    remaining_time: u16,
    cycles_completed: u8,
    state: TimerState,
    on_pause: bool,
}

impl View for PomodoroTimer {
    type V = TimerView;

    closed spec fn view(&self) -> TimerView {
        TimerView {
            pomodoro: self.pomodoro,
            remaining: self.remaining_time,
            cycles_completed: self.cycles_completed,
            state: self.state,
            paused: self.on_pause,
        }
    }
}

impl PomodoroTimer {
    /// A timer at the start of its first work session, running.
    pub fn new(pomodoro: Pomodoro) -> (timer: Self)
        ensures
            timer@ == started(pomodoro),
            timer@.pomodoro == pomodoro,
            timer@.remaining == pomodoro.work_duration,
            timer@.cycles_completed == 0,
            timer@.state == TimerState::Work,
            !timer@.paused,
    {
        Self {
            remaining_time: pomodoro.work_duration,
            pomodoro,
            cycles_completed: 0,
            state: TimerState::Work,
            on_pause: false,
        }
    }

    /// Decrements the timer and transitions states when a phase ends.
    /// The driving loop (outside the library) calls it once per round.
    pub fn tick(&mut self)
        requires
            can_tick(old(self)@),
        ensures
            final(self)@ == ticked(old(self)@),
    {
        if self.on_pause {
            return;
        }
        // Only count down if time remains
        if self.remaining_time > 0 {
            self.remaining_time = self.remaining_time - 1;
            return;
        }
        // Time has reached 0, transition to next state
        self.transition_to_next_state();
    }

    /// Transition to the next state when current phase completes
    fn transition_to_next_state(&mut self)
        requires
            can_advance(old(self)@),
        ensures
            final(self)@ == advanced(old(self)@),
    {
        match self.state {
            TimerState::Work => {
                self.cycles_completed = self.cycles_completed + 1;
                // Every N-th work session is followed by a long break
                if self.cycles_completed % self.pomodoro.cycles == 0 {
                    self.state = TimerState::LongBreak;
                    self.remaining_time = self.pomodoro.long_break_duration;
                } else {
                    self.state = TimerState::ShortBreak;
                    self.remaining_time = self.pomodoro.short_break_duration;
                }
            },
            TimerState::ShortBreak => {
                self.state = TimerState::Work;
                self.remaining_time = self.pomodoro.work_duration;
            },
            TimerState::LongBreak => {
                self.state = TimerState::Work;
                self.remaining_time = self.pomodoro.work_duration;
            },
        }
    }

    /// Skip the current phase and move to the next one, paused or not.
    pub fn skip_phase(&mut self)
        requires
            can_advance(old(self)@),
        ensures
            final(self)@ == advanced(old(self)@),
    {
        self.remaining_time = 0;
        self.transition_to_next_state();
    }

    /// Whether `tick` is defined now (see `can_tick`).
    pub fn is_tick_defined(&self) -> (b: bool)
        ensures
            b == can_tick(self@),
    {
        self.on_pause || self.remaining_time > 0 || self.is_advance_defined()
    }

    /// Whether a phase change is defined now (see `can_advance`).
    pub fn is_advance_defined(&self) -> (b: bool)
        ensures
            b == can_advance(self@),
    {
        match self.state {
            TimerState::Work => self.pomodoro.cycles > 0 && self.cycles_completed < 255,
            _ => true,
        }
    }

    /// Formats seconds as MM:SS
    pub fn format_time(&self, seconds: u16) -> (text: String)
        ensures
            text@ == clock_text(seconds as nat),
            reads_as_clock(text@, seconds as nat),
    {
        proof {
            law_clock_text_reads_as_clock(seconds as nat);
        }
        let minutes: u16 = seconds / 60;
        let secs: u16 = seconds % 60;
        let mut text = String::new();
        push_two_digits(&mut text, minutes);
        text.append(":");
        proof {
            reveal_strlit(":");
        }
        push_two_digits(&mut text, secs);
        assert(text@ =~= clock_text(seconds as nat));
        text
    }

    /// Get human-readable state name
    pub fn state_display(&self) -> (name: &'static str)
        ensures
            name@ == state_name(self@.state),
    {
        match self.state {
            TimerState::Work => "WORK",
            TimerState::ShortBreak => "SHORT BREAK",
            TimerState::LongBreak => "LONG BREAK",
        }
    }

    /// The cycle number shown: the session under way while working, the one
    /// just finished during a break.
    pub fn current_cycle(&self) -> (c: u8)
        requires
            self@.state is Work ==> self@.cycles_completed < 255,
        ensures
            c == shown_cycle(self@),
            self@.state is Work ==> c == self@.cycles_completed + 1,
            !(self@.state is Work) ==> c == self@.cycles_completed,
    {
        if self.state == TimerState::Work {
            self.cycles_completed + 1
        } else {
            self.cycles_completed
        }
    }

    /// The status line of the interactive loop: phase, time left, cycle out
    /// of the cycles per long break, and whether the timer runs.
    pub fn status_line(&self) -> (line: String)
        requires
            self@.state is Work ==> self@.cycles_completed < 255,
        ensures
            line@ == status_text(self@),
    {
        let mut line = String::from_str("\r[");
        line.append(self.state_display());
        line.append("] ");
        let time = self.format_time(self.remaining_time);
        line.append(time.as_str());
        line.append(" | Cycle ");
        push_decimal(&mut line, self.current_cycle() as u16);
        line.append("/");
        push_decimal(&mut line, self.pomodoro.cycles as u16);
        line.append(" | ");
        let status = if self.on_pause { "PAUSED" } else { "RUNNING" };
        line.append(status);
        line.append(" | (p)ause (s)kip (q)uit   ");
        assert(line@ =~= status_text(self@));
        line
    }

    /// Applies a command of the interactive loop; the result says whether
    /// the loop goes on (it stops on `Quit` only).
    pub fn apply_command(&mut self, cmd: UserCommand) -> (keep_running: bool)
        requires
            cmd == UserCommand::Skip ==> can_advance(old(self)@),
        ensures
            keep_running == (cmd != UserCommand::Quit),
            final(self)@ == after_command(old(self)@, cmd),
            (cmd == UserCommand::NoCommand || cmd == UserCommand::Quit) ==> final(self)@ == old(self)@,
            cmd == UserCommand::TogglePause ==> final(self)@ == with_paused(old(self)@, !old(self)@.paused)
                && final(self)@.paused == !old(self)@.paused,
            cmd == UserCommand::Skip ==> final(self)@ == advanced(old(self)@),
    {
        match cmd {
            UserCommand::TogglePause => {
                self.toggle_pause();
                true
            },
            UserCommand::Skip => {
                self.skip_phase();
                true
            },
            UserCommand::Quit => false,
            UserCommand::NoCommand => true,
        }
    }

    pub fn pause(&mut self)
        ensures
            final(self)@ == with_paused(old(self)@, true),
            final(self)@.paused,
            final(self)@.remaining == old(self)@.remaining,
            final(self)@.state == old(self)@.state,
            final(self)@.cycles_completed == old(self)@.cycles_completed,
            final(self)@.pomodoro == old(self)@.pomodoro,
    {
        self.on_pause = true;
    }

    pub fn resume(&mut self)
        ensures
            final(self)@ == with_paused(old(self)@, false),
            !final(self)@.paused,
            final(self)@.remaining == old(self)@.remaining,
            final(self)@.state == old(self)@.state,
            final(self)@.cycles_completed == old(self)@.cycles_completed,
            final(self)@.pomodoro == old(self)@.pomodoro,
    {
        self.on_pause = false;
    }

    pub fn toggle_pause(&mut self)
        ensures
            final(self)@ == with_paused(old(self)@, !old(self)@.paused),
            final(self)@.paused == !old(self)@.paused,
            final(self)@.remaining == old(self)@.remaining,
            final(self)@.state == old(self)@.state,
            final(self)@.cycles_completed == old(self)@.cycles_completed,
            final(self)@.pomodoro == old(self)@.pomodoro,
    {
        self.on_pause = !self.on_pause;
    }

    pub fn remaining(&self) -> (r: u16)
        ensures
            r == self@.remaining,
    {
        self.remaining_time
    }

    pub fn state(&self) -> (s: TimerState)
        ensures
            s == self@.state,
    {
        self.state
    }

    pub fn cycles_completed(&self) -> (c: u8)
        ensures
            c == self@.cycles_completed,
    {
        self.cycles_completed
    }

    pub fn is_paused(&self) -> (p: bool)
        ensures
            p == self@.paused,
    {
        self.on_pause
    }
}

} // verus!
