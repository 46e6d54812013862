//! Waiting for a script that runs as a container to end.

use vstd::prelude::*;

verus! {

/// What the engine says of the state of a container.
#[derive(Debug, Clone, Copy)]
pub struct EngineState {
    pub running: Option<bool>,
    pub paused: Option<bool>,
    pub restarting: Option<bool>,
    pub oom_killed: Option<bool>,
    pub dead: Option<bool>,
    pub exit_code: Option<i64>,
}

/// What a look at a container showed: its state where the engine gave one, nothing, or that
/// the engine did not answer.
#[derive(Debug, Clone, Copy)]
pub enum Look {
    State(EngineState),
    Nothing,
    Lost,
}

/// How a wait came to its end.
#[derive(Debug, Clone, Copy, PartialEq, Eq, Structural)]
pub enum WaitEnd {
    /// The script ended with this exit code.
    Exited(i64),
    /// The engine did not answer.
    Lost,
    /// The script took too long.
    TimedOut,
}

impl WaitEnd {
    /// Whether the script ended and reported success.
    pub open spec fn succeeded(self) -> bool {
        self == WaitEnd::Exited(0)
    }

    /// Whether the script ended and reported success.
    pub fn is_success(self) -> (r: bool)
        ensures
            r == self.succeeded(),
    {
        match self {
            WaitEnd::Exited(code) => code == 0,
            _ => false,
        }
    }
}

/// What a look means for the wait: its end, or that it goes on. A container that is not said
/// to run has ended; without an exit code it has ended badly.
pub open spec fn look_end(look: Look) -> Option<WaitEnd> {
    match look {
        Look::State(state) => if state.running == Some(true) {
            None
        } else {
            Some(
                WaitEnd::Exited(
                    match state.exit_code {
                        Some(code) => code,
                        None => (-1) as i64,
                    },
                ),
            )
        },
        Look::Nothing => None,
        Look::Lost => Some(WaitEnd::Lost),
    }
}

/// A wait that looks every two seconds, for a limited time.
#[derive(Debug, Clone, Copy)]
pub struct ExitWait {
    /// The seconds that were waited.
    pub waited: u64,
    /// The most seconds to wait.
    pub timeout_secs: u64,
}

/// How long to pause before each look, in milliseconds.
pub const LOOK_PAUSE_MS: u64 = 2000;

/// How long the engine may take to tell the state of a container, in seconds, where somebody waits
/// for it.
pub const INSPECT_TIMEOUT_SECS: u64 = 2;

/// How long a script may run, in seconds.
pub const SCRIPT_TIMEOUT_SECS: u64 = 600;

impl DeepView for ExitWait {
    type V = ExitWait;

    open spec fn deep_view(&self) -> ExitWait {
        *self
    }
}

/// The wait with which a look is taken after a pause of two seconds, or none where the time is
/// over.
pub open spec fn next_wait(wait: ExitWait) -> Option<ExitWait> {
    if wait.waited + 2 > wait.timeout_secs {
        None
    } else {
        Some(ExitWait { waited: (wait.waited + 2) as u64, ..wait })
    }
}

impl ExitWait {
    /// A wait that begins.
    pub fn new(timeout_secs: u64) -> (r: Self)
        ensures
            r == (ExitWait { waited: 0, timeout_secs }),
    {
        ExitWait { waited: 0, timeout_secs }
    }

    /// How many looks are still taken at most.
    pub open spec fn looks_left(self) -> nat {
        if self.waited <= self.timeout_secs {
            ((self.timeout_secs - self.waited) / 2) as nat
        } else {
            0
        }
    }

    /// After a pause of two seconds: the wait with which a look is taken now, or none where the
    /// time is over.
    pub fn paused(self) -> (r: Option<ExitWait>)
        requires
            self.waited <= self.timeout_secs <= u64::MAX - 2,
        ensures
            r == next_wait(self),
            r matches Some(next) ==> next.waited <= next.timeout_secs,
    {
        let waited = self.waited + 2;
        if waited > self.timeout_secs {
            None
        } else {
            Some(ExitWait { waited, timeout_secs: self.timeout_secs })
        }
    }

    /// What a look means for the wait.
    pub fn looked(look: &Look) -> (r: Option<WaitEnd>)
        ensures
            r == look_end(*look),
    {
        match look {
            Look::State(state) => {
                let running = match state.running {
                    Some(b) => b,
                    None => false,
                };
                if running {
                    None
                } else {
                    let code: i64 = match state.exit_code {
                        Some(code) => code,
                        None => -1,
                    };
                    Some(WaitEnd::Exited(code))
                }
            },
            Look::Nothing => None,
            Look::Lost => Some(WaitEnd::Lost),
        }
    }
}

/// How a wait ends, given what each look shows; `None` while looks are missing.
pub open spec fn wait_end(wait: ExitWait, looks: Seq<Look>) -> Option<WaitEnd>
    decreases looks.len(),
{
    match next_wait(wait) {
        None => Some(WaitEnd::TimedOut),
        Some(next) => if looks.len() == 0 {
            None
        } else {
            match look_end(looks[0]) {
                Some(end) => Some(end),
                None => wait_end(next, looks.drop_first()),
            }
        },
    }
}

/// A wait ends: after as many looks as fit in its time it has an end, whatever they show.
pub proof fn law_wait_ends(wait: ExitWait, looks: Seq<Look>)
    requires
        wait.waited <= wait.timeout_secs <= u64::MAX - 2,
        looks.len() >= wait.looks_left(),
    ensures
        wait_end(wait, looks) is Some,
    decreases looks.len(),
{
    if wait.waited + 2 <= wait.timeout_secs && looks.len() > 0 && look_end(looks[0]) is None {
        let next = ExitWait { waited: (wait.waited + 2) as u64, ..wait };
        law_wait_ends(next, looks.drop_first());
    }
}

/// A wait counts as a success only where a look showed that the script ended with exit code 0.
pub proof fn law_success_was_seen(wait: ExitWait, looks: Seq<Look>)
    requires
        wait_end(wait, looks) matches Some(end) && end.succeeded(),
    ensures
        exists|i: int|
            0 <= i < looks.len() && look_end(#[trigger] looks[i]) == Some(WaitEnd::Exited(0)),
    decreases looks.len(),
{
    if looks.len() > 0 && look_end(looks[0]) is None {
        let next = ExitWait { waited: (wait.waited + 2) as u64, ..wait };
        law_success_was_seen(next, looks.drop_first());
        let i = choose|i: int|
            0 <= i < looks.drop_first().len() && look_end(
                #[trigger] looks.drop_first()[i],
            ) == Some(WaitEnd::Exited(0));
        assert(look_end(looks[i + 1]) == Some(WaitEnd::Exited(0)));
    }
}

/// A container that is said to run is waited for, and so is one of which nothing is said. One
/// that is not said to run has ended with its exit code, and badly where it has none; an engine
/// that does not answer ends the wait.
pub proof fn law_looks(state: EngineState)
    ensures
        state.running == Some(true) ==> look_end(Look::State(state)) is None,
        state.running != Some(true) ==> (look_end(Look::State(state)) matches Some(end) && {
            &&& state.exit_code matches Some(code) ==> end == WaitEnd::Exited(code)
            &&& state.exit_code is None ==> end == WaitEnd::Exited((-1) as i64)
            &&& end.succeeded() <==> state.exit_code == Some(0i64)
        }),
        look_end(Look::Nothing) is None,
        look_end(Look::Lost) == Some(WaitEnd::Lost),
        !WaitEnd::Lost.succeeded(),
        !WaitEnd::TimedOut.succeeded(),
{
}

/// The first look that shows an end is the end of the wait, as long as there was time for that
/// look; where every look for which there is time shows none, the wait is over for want of time.
pub proof fn law_first_end_counts(wait: ExitWait, looks: Seq<Look>, i: int)
    requires
        wait.waited <= wait.timeout_secs <= u64::MAX - 2,
        0 <= i <= looks.len(),
        forall|j: int| 0 <= j < i ==> look_end(#[trigger] looks[j]) is None,
    ensures
        wait.waited + 2 * (i + 1) <= wait.timeout_secs && i < looks.len() && look_end(looks[i]) is Some
            ==> wait_end(wait, looks) == look_end(looks[i]),
        wait.waited + 2 * (i + 1) > wait.timeout_secs ==> wait_end(wait, looks) == Some(
            WaitEnd::TimedOut,
        ),
    decreases looks.len(),
{
    if i > 0 && wait.waited + 2 <= wait.timeout_secs {
        let next = ExitWait { waited: (wait.waited + 2) as u64, ..wait };
        let rest = looks.drop_first();
        assert(look_end(looks[0]) is None);
        assert forall|j: int| 0 <= j < i - 1 implies look_end(#[trigger] rest[j]) is None by {
            assert(rest[j] == looks[j + 1]);
        }
        law_first_end_counts(next, rest, i - 1);
        if i < looks.len() {
            assert(rest[i - 1] == looks[i]);
        }
    }
}

/// Each look is two seconds after the one before, and the last no later than the time allows.
pub proof fn law_two_seconds_each(wait: ExitWait)
    ensures
        next_wait(wait) is Some <==> wait.waited + 2 <= wait.timeout_secs,
        next_wait(wait) matches Some(next) ==> {
            &&& next.waited == wait.waited + 2
            &&& 1000 * (next.waited - wait.waited) == LOOK_PAUSE_MS
            &&& next.timeout_secs == wait.timeout_secs
        },
        SCRIPT_TIMEOUT_SECS == 10 * 60,
        INSPECT_TIMEOUT_SECS == 2,
{
}

} // verus!
