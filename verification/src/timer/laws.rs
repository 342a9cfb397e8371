use vstd::prelude::*;

use crate::timer::engine::{
    advanced, after_command, can_advance, can_tick, clock_text, decimal, phase_duration,
    shown_cycle, started, state_name, status_text, ticked, with_paused, TimerView,
};
use crate::timer::input::{command_for, Key, KeyPress, UserCommand};
use crate::timer::pomodoro::{Pomodoro, TimerState};

verus! {

/// The timer after `n` ticks from `v`.
pub open spec fn ticks(v: TimerView, n: nat) -> TimerView
    decreases n,
{
    if n == 0 {
        v
    } else {
        ticked(ticks(v, (n - 1) as nat))
    }
}

/// The timer after `n` skips from `v`.
pub open spec fn skips(v: TimerView, n: nat) -> TimerView
    decreases n,
{
    if n == 0 {
        v
    } else {
        advanced(skips(v, (n - 1) as nat))
    }
}

/// `v` with `n` seconds taken off its current phase and all else kept.
pub open spec fn counted_down(v: TimerView, n: nat) -> TimerView {
    TimerView {
        pomodoro: v.pomodoro,
        remaining: (v.remaining - n) as u16,
        cycles_completed: v.cycles_completed,
        state: v.state,
        paused: v.paused,
    }
}

/// The seconds left never exceed the length of the current phase.
pub open spec fn within_phase(v: TimerView) -> bool {
    v.remaining <= phase_duration(v.pomodoro, v.state)
}

/// The running timer at the start of work session number `k + 1`, after `k`
/// finished work sessions.
pub open spec fn working(p: Pomodoro, k: nat) -> TimerView {
    TimerView {
        pomodoro: p,
        remaining: p.work_duration,
        cycles_completed: k as u8,
        state: TimerState::Work,
        paused: false,
    }
}

/// The break that follows the `k`-th work session: a long one when `k` is a
/// multiple of `cycles`, a short one otherwise.
pub open spec fn break_after(p: Pomodoro, k: nat) -> TimerView {
    if k % (p.cycles as nat) == 0 {
        TimerView {
            pomodoro: p,
            remaining: p.long_break_duration,
            cycles_completed: k as u8,
            state: TimerState::LongBreak,
            paused: false,
        }
    } else {
        TimerView {
            pomodoro: p,
            remaining: p.short_break_duration,
            cycles_completed: k as u8,
            state: TimerState::ShortBreak,
            paused: false,
        }
    }
}

/// A paused timer does not count down: a tick changes nothing.
pub proof fn law_paused_tick_changes_nothing(v: TimerView)
    requires
        v.paused,
    ensures
        can_tick(v),
        ticked(v) == v,
{
}

/// A running timer with time left loses exactly one second per tick and
/// stays in its phase, even when it reaches zero.
pub proof fn law_tick_counts_down(v: TimerView)
    requires
        !v.paused,
        v.remaining > 0,
    ensures
        can_tick(v),
        ticked(v) == counted_down(v, 1),
{
}

/// A running phase that has `d` seconds left shows 0 after `d` ticks, still
/// in the same phase, and changes phase exactly at tick `d + 1`.
pub proof fn law_phase_ends_one_tick_after_zero(v: TimerView, n: nat)
    requires
        !v.paused,
        n <= v.remaining,
    ensures
        ticks(v, n) == counted_down(v, n),
        ticks(v, v.remaining as nat) == counted_down(v, v.remaining as nat),
        ticks(v, v.remaining as nat).remaining == 0,
        ticks(v, v.remaining as nat).state == v.state,
        ticks(v, (v.remaining + 1) as nat) == advanced(v),
{
    lemma_ticks_count_down(v, n);
    lemma_ticks_count_down(v, v.remaining as nat);
    let z = ticks(v, v.remaining as nat);
    assert(ticks(v, (v.remaining + 1) as nat) == ticked(z));
    assert(advanced(z) == advanced(v));
}

proof fn lemma_ticks_count_down(v: TimerView, n: nat)
    requires
        !v.paused,
        n <= v.remaining,
    ensures
        ticks(v, n) == counted_down(v, n),
    decreases n,
{
    if n > 0 {
        lemma_ticks_count_down(v, (n - 1) as nat);
    }
}

/// Phases alternate: a work session is always followed by a break and a
/// break by a work session. The new phase starts with its full length and
/// the pause flag and the configuration are kept.
pub proof fn law_phases_alternate(v: TimerView)
    ensures
        advanced(v).state is Work <==> !(v.state is Work),
        advanced(v).remaining == phase_duration(v.pomodoro, advanced(v).state),
        advanced(v).state is Work ==> advanced(v).remaining == v.pomodoro.work_duration,
        advanced(v).state is ShortBreak ==> advanced(v).remaining
            == v.pomodoro.short_break_duration,
        advanced(v).state is LongBreak ==> advanced(v).remaining == v.pomodoro.long_break_duration,
        advanced(v).paused == v.paused,
        advanced(v).pomodoro == v.pomodoro,
{
}

/// Ending a work session counts it, and it is followed by a long break
/// exactly when the new count is a multiple of `cycles`; ending a break
/// leaves the count as it was.
pub proof fn law_every_nth_session_gets_long_break(v: TimerView)
    requires
        can_advance(v),
    ensures
        v.state is Work ==> advanced(v).cycles_completed == v.cycles_completed + 1,
        v.state is Work ==> (advanced(v).state is LongBreak <==> (v.cycles_completed + 1)
            % (v.pomodoro.cycles as int) == 0),
        !(v.state is Work) ==> advanced(v).cycles_completed == v.cycles_completed,
        advanced(v).cycles_completed >= v.cycles_completed,
{
}

/// The seconds left never exceed the current phase's length: true of a new
/// timer and kept by every tick, phase change and pause operation.
pub proof fn law_remaining_within_phase(p: Pomodoro, v: TimerView, paused: bool)
    ensures
        within_phase(started(p)),
        within_phase(advanced(v)),
        within_phase(v) ==> within_phase(ticked(v)),
        within_phase(v) ==> within_phase(with_paused(v, paused)),
{
}

/// Pausing, resuming and toggling change only the pause flag; toggling twice
/// gives back the timer, and resuming a paused running timer gives it back.
pub proof fn law_pause_only_touches_the_flag(v: TimerView)
    ensures
        with_paused(with_paused(v, !v.paused), !with_paused(v, !v.paused).paused) == v,
        !v.paused ==> with_paused(with_paused(v, true), false) == v,
        v.paused ==> with_paused(with_paused(v, false), true) == v,
        with_paused(v, true).state == v.state && with_paused(v, true).remaining == v.remaining,
        with_paused(v, false).state == v.state && with_paused(v, false).remaining == v.remaining,
{
}

/// From a new timer, phase changes run work, break, work, break, ...: after
/// `2k` of them the timer starts work session `k + 1`, after `2k + 1` it is in
/// the break that follows session `k + 1`, which is long exactly when `k + 1`
/// is a multiple of `cycles`. Each of these phase changes is defined while
/// the count fits in a `u8`.
pub proof fn law_session_sequence(p: Pomodoro, k: nat)
    requires
        p.cycles > 0,
        k < 255,
    ensures
        skips(started(p), 2 * k) == working(p, k),
        can_advance(skips(started(p), 2 * k)),
        skips(started(p), 2 * k + 1) == break_after(p, k + 1),
        can_advance(skips(started(p), 2 * k + 1)),
    decreases k,
{
    if k == 0 {
        assert(skips(started(p), 0) == started(p));
        assert(skips(started(p), 1) == advanced(skips(started(p), 0)));
    } else {
        law_session_sequence(p, (k - 1) as nat);
        let prev = skips(started(p), (2 * k - 1) as nat);
        assert(prev == break_after(p, k));
        assert(skips(started(p), 2 * k) == advanced(prev));
        assert(skips(started(p), 2 * k + 1) == advanced(skips(started(p), 2 * k)));
    }
}


/// One operation on a timer, as its method's contract describes it: `Tick`
/// is `tick`, `Skip` is `skip_phase`, `Pause`, `Resume` and `Toggle` are
/// `pause`, `resume` and `toggle_pause`.
pub enum TimerOp {
    Tick,
    Skip,
    Pause,
    Resume,
    Toggle,
}

/// The timer after operation `op`.
pub open spec fn step(v: TimerView, op: TimerOp) -> TimerView {
    match op {
        TimerOp::Tick => ticked(v),
        TimerOp::Skip => advanced(v),
        TimerOp::Pause => with_paused(v, true),
        TimerOp::Resume => with_paused(v, false),
        TimerOp::Toggle => with_paused(v, !v.paused),
    }
}

/// Operation `op` is defined on `v` (its method's `requires` holds).
pub open spec fn step_defined(v: TimerView, op: TimerOp) -> bool {
    match op {
        TimerOp::Tick => can_tick(v),
        TimerOp::Skip => can_advance(v),
        _ => true,
    }
}

/// Operation `op` on `v` ends the current phase.
pub open spec fn ends_phase(v: TimerView, op: TimerOp) -> bool {
    match op {
        TimerOp::Skip => true,
        TimerOp::Tick => !v.paused && v.remaining == 0,
        _ => false,
    }
}

/// The timer after the operations `ops`, in order, from `v`.
pub open spec fn run(v: TimerView, ops: Seq<TimerOp>) -> TimerView
    decreases ops.len(),
{
    if ops.len() == 0 {
        v
    } else {
        step(run(v, ops.drop_last()), ops.last())
    }
}

/// Every operation of `ops`, run in order from `v`, is defined.
pub open spec fn run_defined(v: TimerView, ops: Seq<TimerOp>) -> bool
    decreases ops.len(),
{
    if ops.len() == 0 {
        true
    } else {
        run_defined(v, ops.drop_last()) && step_defined(run(v, ops.drop_last()), ops.last())
    }
}

/// The phases the timer is in while `ops` run from `v`: the first phase,
/// then each phase entered when one ends.
pub open spec fn phase_log(v: TimerView, ops: Seq<TimerOp>) -> Seq<TimerState>
    decreases ops.len(),
{
    if ops.len() == 0 {
        seq![v.state]
    } else {
        let before = run(v, ops.drop_last());
        let log = phase_log(v, ops.drop_last());
        if ends_phase(before, ops.last()) {
            log.push(step(before, ops.last()).state)
        } else {
            log
        }
    }
}

/// The number of work sessions that end while `ops` run from `v`.
pub open spec fn sessions_ended(v: TimerView, ops: Seq<TimerOp>) -> nat
    decreases ops.len(),
{
    if ops.len() == 0 {
        0
    } else {
        let before = run(v, ops.drop_last());
        let n = sessions_ended(v, ops.drop_last());
        if ends_phase(before, ops.last()) && before.state is Work {
            n + 1
        } else {
            n
        }
    }
}

/// In a phase log, the break that follows the `j`-th work session.
pub open spec fn break_after_session(log: Seq<TimerState>, j: int) -> TimerState {
    log[2 * j - 1]
}

/// What holds of timer `v`, reached from a new timer of configuration `p`,
/// with phase log `log` after `n` ended work sessions.
spec fn session_log_ok(p: Pomodoro, v: TimerView, log: Seq<TimerState>, n: nat) -> bool {
    &&& v.pomodoro == p
    &&& v.cycles_completed == n
    &&& log.len() == 2 * n + (if v.state is Work { 1int } else { 0int })
    &&& log.len() > 0
    &&& log.last() == v.state
    &&& forall|i: int| 0 <= i < log.len() ==> ((#[trigger] log[i] is Work) <==> i % 2 == 0)
    &&& forall|i: int|
        0 <= i < log.len() && i % 2 == 1 ==> ((#[trigger] log[i] is LongBreak) <==> ((i + 1) / 2)
            % (p.cycles as int) == 0)
}

proof fn lemma_run_keeps_session_log(p: Pomodoro, ops: Seq<TimerOp>)
    requires
        p.cycles > 0,
        run_defined(started(p), ops),
    ensures
        session_log_ok(
            p,
            run(started(p), ops),
            phase_log(started(p), ops),
            sessions_ended(started(p), ops),
        ),
    decreases ops.len(),
{
    let v0 = started(p);
    if ops.len() == 0 {
        assert(phase_log(v0, ops) =~= seq![TimerState::Work]);
    } else {
        let prefix = ops.drop_last();
        let op = ops.last();
        lemma_run_keeps_session_log(p, prefix);
        let before = run(v0, prefix);
        let log = phase_log(v0, prefix);
        let n = sessions_ended(v0, prefix);
        let after = step(before, op);
        assert(run(v0, ops) == after);
        if ends_phase(before, op) {
            assert(after == advanced(before));
            let new_log = log.push(after.state);
            assert(phase_log(v0, ops) == new_log);
            if before.state is Work {
                assert(sessions_ended(v0, ops) == n + 1);
                assert forall|i: int|
                    0 <= i < new_log.len() && i % 2 == 1 implies ((#[trigger] new_log[i] is LongBreak)
                    <==> ((i + 1) / 2) % (p.cycles as int) == 0) by {
                    if i == log.len() {
                        assert((i + 1) / 2 == n + 1);
                    } else {
                        assert(new_log[i] == log[i]);
                    }
                }
                assert forall|i: int| 0 <= i < new_log.len() implies ((#[trigger] new_log[i] is Work)
                    <==> i % 2 == 0) by {
                    if i < log.len() {
                        assert(new_log[i] == log[i]);
                    }
                }
            } else {
                assert(sessions_ended(v0, ops) == n);
                assert forall|i: int|
                    0 <= i < new_log.len() && i % 2 == 1 implies ((#[trigger] new_log[i] is LongBreak)
                    <==> ((i + 1) / 2) % (p.cycles as int) == 0) by {
                    assert(new_log[i] == log[i]);
                }
                assert forall|i: int| 0 <= i < new_log.len() implies ((#[trigger] new_log[i] is Work)
                    <==> i % 2 == 0) by {
                    if i < log.len() {
                        assert(new_log[i] == log[i]);
                    }
                }
            }
        } else {
            assert(phase_log(v0, ops) == log);
            assert(sessions_ended(v0, ops) == n);
            assert(after.state == before.state);
            assert(after.pomodoro == before.pomodoro);
            assert(after.cycles_completed == before.cycles_completed);
        }
    }
}

/// Over any run of ticks, skips, pauses, resumes and toggles from a new timer
/// in which every call is defined (so fewer than 256 work sessions end):
/// `cycles_completed` is the number of work sessions ended so far; the phases
/// go work, break, work, break, ..., starting with work, so each phase change
/// flips between work and break; and the break after the `j`-th work session
/// is a long one exactly when `j` is a multiple of `cycles`.
pub proof fn law_sessions_over_any_run(p: Pomodoro, ops: Seq<TimerOp>)
    requires
        p.cycles > 0,
        run_defined(started(p), ops),
    ensures
        ({
            let v = run(started(p), ops);
            let log = phase_log(started(p), ops);
            let n = sessions_ended(started(p), ops);
            &&& v.cycles_completed == n
            &&& v.pomodoro == p
            &&& log.len() == 2 * n + (if v.state is Work { 1int } else { 0int })
            &&& log[0] == TimerState::Work
            &&& log.last() == v.state
            &&& forall|i: int| 0 <= i < log.len() ==> ((#[trigger] log[i] is Work) <==> i % 2 == 0)
            &&& forall|j: int|
                1 <= j <= n ==> ((#[trigger] break_after_session(log, j) is LongBreak) <==> j
                    % (p.cycles as int) == 0)
            &&& forall|j: int|
                1 <= j <= n ==> !(#[trigger] break_after_session(log, j) is Work)
        }),
{
    lemma_run_keeps_session_log(p, ops);
    let log = phase_log(started(p), ops);
    let n = sessions_ended(started(p), ops);
    assert(log[0] is Work <==> 0int % 2 == 0);
    assert forall|j: int| 1 <= j <= n implies ((#[trigger] break_after_session(log, j) is LongBreak)
        <==> j % (p.cycles as int) == 0) && !(break_after_session(log, j) is Work) by {
        let i = 2 * j - 1;
        assert(log[i] is Work <==> i % 2 == 0);
        assert((i + 1) / 2 == j);
    }
}


/// In every phase, pausing sets the pause flag, resuming clears it and
/// toggling flips it, and none of them touches anything else; a tick after
/// pausing changes nothing, whatever the phase.
pub proof fn law_pause_in_every_phase(v: TimerView)
    ensures
        with_paused(v, true).paused,
        !with_paused(v, false).paused,
        with_paused(v, !v.paused).paused == !v.paused,
        forall|b: bool|
            {
                let w = #[trigger] with_paused(v, b);
                &&& w.remaining == v.remaining
                &&& w.state == v.state
                &&& w.cycles_completed == v.cycles_completed
                &&& w.pomodoro == v.pomodoro
            },
        ticked(with_paused(v, true)) == with_paused(v, true),
        ticked(with_paused(v, true)).remaining == v.remaining,
        ticked(with_paused(v, true)).state == v.state,
        ticked(with_paused(v, true)).cycles_completed == v.cycles_completed,
{
}

/// The cycle shown is the session under way while working and the session
/// just finished during any break, so it stays the same when a work session
/// ends and grows by one when a break ends.
pub proof fn law_shown_cycle(v: TimerView)
    ensures
        v.state is Work ==> shown_cycle(v) == v.cycles_completed + 1,
        !(v.state is Work) ==> shown_cycle(v) == v.cycles_completed,
        v.state is Work && can_advance(v) ==> shown_cycle(advanced(v)) == shown_cycle(v),
        !(v.state is Work) ==> shown_cycle(advanced(v)) == shown_cycle(v) + 1,
        v.state is Work && can_advance(v) ==> shown_cycle(advanced(v)) == advanced(
            v,
        ).cycles_completed,
{
}

/// The status line shows, in this order, the phase's name, the time left as
/// `MM:SS`, the cycle (finished sessions, plus one while working) out of
/// `cycles`, and whether the timer is paused.
pub proof fn law_status_line_parts(v: TimerView)
    ensures
        status_text(v) == "\r["@ + state_name(v.state) + "] "@ + clock_text(v.remaining as nat)
            + " | Cycle "@ + decimal(
            (if v.state is Work {
                v.cycles_completed + 1
            } else {
                v.cycles_completed as int
            }) as nat,
        ) + "/"@ + decimal(v.pomodoro.cycles as nat) + " | "@ + (if v.paused {
            "PAUSED"@
        } else {
            "RUNNING"@
        }) + " | (p)ause (s)kip (q)uit   "@,
{
}

/// Each command is given by exactly its keys: `p`/`P` toggle the pause,
/// `s`/`S` skip, `q`/`Q` and Ctrl+`c` quit; any key that is not a character
/// means nothing, with or without Control.
pub proof fn law_key_commands(press: KeyPress)
    ensures
        command_for(press) == UserCommand::TogglePause <==> (press.key == Key::Char('p')
            || press.key == Key::Char('P')),
        command_for(press) == UserCommand::Skip <==> (press.key == Key::Char('s') || press.key
            == Key::Char('S')),
        command_for(press) == UserCommand::Quit <==> (press.key == Key::Char('q') || press.key
            == Key::Char('Q') || (press.key == Key::Char('c') && press.ctrl)),
        press.key is Other ==> command_for(press) == UserCommand::NoCommand,
{
}

/// No command and Quit leave the timer exactly as it was; TogglePause flips
/// only the pause flag; Skip ends the current phase.
pub proof fn law_commands(v: TimerView)
    ensures
        after_command(v, UserCommand::NoCommand) == v,
        after_command(v, UserCommand::Quit) == v,
        after_command(v, UserCommand::TogglePause).paused == !v.paused,
        after_command(v, UserCommand::TogglePause).remaining == v.remaining,
        after_command(v, UserCommand::TogglePause).state == v.state,
        after_command(v, UserCommand::TogglePause).cycles_completed == v.cycles_completed,
        after_command(v, UserCommand::TogglePause).pomodoro == v.pomodoro,
        after_command(v, UserCommand::Skip) == advanced(v),
{
}

} // verus!
