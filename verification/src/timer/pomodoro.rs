use vstd::prelude::*;

verus! {

/// The three phases a Pomodoro timer moves through.
#[derive(Debug, Clone, Copy, PartialEq, Eq, Structural)]
pub enum TimerState {
    Work,
    ShortBreak,
    LongBreak,
}

/// Why a Pomodoro configuration was refused.
#[derive(Debug, Clone, Copy, PartialEq, Eq, Structural)]
pub enum PomodoroError {
    InvalidWorkDuration,
    InvalidShortBreak,
    InvalidLongBreak,
    InvalidCycles,
}

/// Represents a Pomodoro timer with work,
/// short break, and long break durations.
/// Represented in seconds.
#[derive(Debug, Clone, Copy)]
pub struct Pomodoro {
    pub work_duration: u16,
    pub short_break_duration: u16,
    pub long_break_duration: u16,
    pub cycles: u8,
}

impl Pomodoro {
    /// Every duration and the number of cycles is positive.
    pub open spec fn is_valid(self) -> bool {
        &&& self.work_duration > 0
        &&& self.short_break_duration > 0
        &&& self.long_break_duration > 0
        &&& self.cycles > 0
    }

    /// The error reported for a configuration: the first field, in
    /// declaration order, that is zero.
    pub open spec fn first_error(work: u16, short: u16, long: u16, cycles: u8) -> Option<PomodoroError> {
        if work == 0 {
            Some(PomodoroError::InvalidWorkDuration)
        } else if short == 0 {
            Some(PomodoroError::InvalidShortBreak)
        } else if long == 0 {
            Some(PomodoroError::InvalidLongBreak)
        } else if cycles == 0 {
            Some(PomodoroError::InvalidCycles)
        } else {
            None
        }
    }

    /// Builds a configuration; every duration (in seconds) and the number of
    /// work sessions per long break must be positive.
    pub fn new(
        work_duration: u16,
        short_break_duration: u16,
        long_break_duration: u16,
        cycles: u8,
    ) -> (res: Result<Pomodoro, PomodoroError>)
        ensures
            match Self::first_error(work_duration, short_break_duration, long_break_duration, cycles) {
                Some(e) => res == Err::<Pomodoro, PomodoroError>(e),
                None => res is Ok,
            },
            res is Ok <==> (work_duration > 0 && short_break_duration > 0 && long_break_duration > 0
                && cycles > 0),
            work_duration == 0 ==> res == Err::<Pomodoro, PomodoroError>(
                PomodoroError::InvalidWorkDuration,
            ),
            work_duration > 0 && short_break_duration == 0 ==> res == Err::<Pomodoro, PomodoroError>(
                PomodoroError::InvalidShortBreak,
            ),
            work_duration > 0 && short_break_duration > 0 && long_break_duration == 0 ==> res
                == Err::<Pomodoro, PomodoroError>(PomodoroError::InvalidLongBreak),
            work_duration > 0 && short_break_duration > 0 && long_break_duration > 0 && cycles == 0
                ==> res == Err::<Pomodoro, PomodoroError>(PomodoroError::InvalidCycles),
            res matches Ok(p) ==> {
                &&& p.work_duration == work_duration
                &&& p.short_break_duration == short_break_duration
                &&& p.long_break_duration == long_break_duration
                &&& p.cycles == cycles
                &&& p.is_valid()
            },
    {
        if work_duration == 0 {
            Err(PomodoroError::InvalidWorkDuration)
        } else if short_break_duration == 0 {
            Err(PomodoroError::InvalidShortBreak)
        } else if long_break_duration == 0 {
            Err(PomodoroError::InvalidLongBreak)
        } else if cycles == 0 {
            Err(PomodoroError::InvalidCycles)
        } else {
            Ok(Pomodoro { work_duration, short_break_duration, long_break_duration, cycles })
        }
    }
}

} // verus!
