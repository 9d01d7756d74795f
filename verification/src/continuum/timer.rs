use vstd::prelude::*;

verus! {

/// The two states of a [`Timer`].
#[derive(Debug, Copy, Clone, PartialEq, Eq, Structural)]
pub enum TimerState {
    Stopped,
    Running,
}

/// What the timer's background task does next.
#[derive(Debug, Copy, Clone, PartialEq, Eq, Structural)]
pub enum TimerAction {
    /// Note the time, sleep for the interval, then send the time that really
    /// passed and report the outcome with [`Timer::on_send`].
    SleepThenSend { interval_ms: u64 },
    /// Leave the loop: the timer was stopped.
    Exit,
}

/// The decisions of a periodic tick source.
///
/// The timer itself neither sleeps nor sends. It tells the background task
/// that serves it what to do next, and the controller whether there is a task
/// to wait for.
#[derive(Debug)]
pub struct Timer {
    state: TimerState,
    task_attached: bool,
    timeout_ms: u64,
}

impl Timer {
    /// While the timer runs, a background task serves it.
    #[verifier::type_invariant]
    spec fn running_is_served(&self) -> bool {
        self.state == TimerState::Running ==> self.task_attached
    }

    pub closed spec fn state_spec(&self) -> TimerState {
        self.state
    }

    /// Whether a background task was started for this timer and has not been
    /// waited for since.
    pub closed spec fn task_attached(&self) -> bool {
        self.task_attached
    }

    /// The configured time between two ticks, in milliseconds.
    pub closed spec fn interval_ms(&self) -> u64 {
        self.timeout_ms
    }

    /// What the background task is told in the state `state`.
    pub open spec fn action_in(state: TimerState, interval_ms: u64) -> TimerAction {
        match state {
            TimerState::Running => TimerAction::SleepThenSend { interval_ms },
            TimerState::Stopped => TimerAction::Exit,
        }
    }

    /// The state after a send, given the state before it: a tick that found
    /// no receiver stops the timer.
    pub open spec fn state_after_send(state: TimerState, delivered: bool) -> TimerState {
        if delivered {
            state
        } else {
            TimerState::Stopped
        }
    }

    /// A stopped timer with no background task.
    pub fn new(timeout_ms: u64) -> (timer: Timer)
        ensures
            timer.state_spec() == TimerState::Stopped,
            !timer.task_attached(),
            timer.interval_ms() == timeout_ms,
    {
        Timer { state: TimerState::Stopped, task_attached: false, timeout_ms }
    }

    /// Starts the timer and returns the interval for the background task that
    /// the caller now has to start. Only a stopped timer can be started.
    pub fn start(&mut self) -> (interval_ms: u64)
        requires
            old(self).state_spec() == TimerState::Stopped,
        ensures
            final(self).state_spec() == TimerState::Running,
            final(self).task_attached(),
            final(self).interval_ms() == old(self).interval_ms(),
            interval_ms == old(self).interval_ms(),
    {
        *self = Timer {
            state: TimerState::Running,
            task_attached: true,
            timeout_ms: self.timeout_ms,
        };
        self.timeout_ms
    }

    /// Stops the timer. Returns whether a background task is attached, which
    /// the caller then has to wait for; the timer forgets the task.
    pub fn stop(&mut self) -> (join: bool)
        ensures
            final(self).state_spec() == TimerState::Stopped,
            !final(self).task_attached(),
            final(self).interval_ms() == old(self).interval_ms(),
            join == old(self).task_attached(),
            old(self).state_spec() == TimerState::Running ==> join,
    {
        proof {
            use_type_invariant(&*self);
        }
        let join = self.task_attached;
        *self = Timer {
            state: TimerState::Stopped,
            task_attached: false,
            timeout_ms: self.timeout_ms,
        };
        join
    }

    /// The timer's state. A running timer always has its task attached.
    #[verifier::when_used_as_spec(state_spec)]
    pub fn state(&self) -> (state: TimerState)
        ensures
            state == self.state_spec(),
            state == TimerState::Running ==> self.task_attached(),
    {
        proof {
            use_type_invariant(self);
        }
        self.state
    }

    /// The background task's next step: another round while the timer runs,
    /// the way out once it is stopped.
    pub fn next_action(&self) -> (action: TimerAction)
        ensures
            action == Self::action_in(self.state_spec(), self.interval_ms()),
    {
        match self.state {
            TimerState::Running => TimerAction::SleepThenSend { interval_ms: self.timeout_ms },
            TimerState::Stopped => TimerAction::Exit,
        }
    }

    /// Takes note of how a send ended. A tick that nobody received stops the
    /// timer, so that the background task ends at its next step.
    pub fn on_send(&mut self, delivered: bool)
        ensures
            final(self).state_spec() == Self::state_after_send(old(self).state_spec(), delivered),
            final(self).task_attached() == old(self).task_attached(),
            final(self).interval_ms() == old(self).interval_ms(),
    {
        if !delivered {
            self.set_state(TimerState::Stopped);
        }
    }

    fn set_state(&mut self, state: TimerState)
        requires
            state == TimerState::Running ==> old(self).task_attached(),
        ensures
            final(self).state_spec() == state,
            final(self).task_attached() == old(self).task_attached(),
            final(self).interval_ms() == old(self).interval_ms(),
    {
        *self = Timer { state, task_attached: self.task_attached, timeout_ms: self.timeout_ms };
    }
}

} // verus!
