use crate::continuum::timer::{Timer, TimerAction, TimerState};
use vstd::prelude::*;

verus! {

/// What the task that consumes the ticks does next.
#[derive(Debug, Copy, Clone, PartialEq, Eq, Structural)]
pub enum ConsumerAction {
    /// Wait for the next tick and hand it to [`Engine::on_received`].
    AwaitTick,
    /// Leave the loop.
    Exit,
}

/// Which background tasks a caller of [`Engine::stop`] has to wait for.
#[derive(Debug, Copy, Clone, PartialEq, Eq, Structural)]
pub struct StopPlan {
    pub join_timer: bool,
    pub join_consumer: bool,
}

/// Where an engine stands between start and stop: the timer's state, and
/// which of the two background tasks are attached to it.
pub struct Lifecycle {
    pub state: TimerState,
    pub timer_task: bool,
    pub consumer_task: bool,
}

impl Lifecycle {
    /// While the timer runs, both background tasks are attached.
    pub open spec fn coherent(self) -> bool {
        self.state == TimerState::Running ==> self.timer_task && self.consumer_task
    }

    /// The lifecycle of an engine that was never started.
    pub open spec fn idle() -> Lifecycle {
        Lifecycle { state: TimerState::Stopped, timer_task: false, consumer_task: false }
    }

    /// After a start: the timer runs and both tasks are new.
    pub open spec fn after_start(self) -> Lifecycle {
        Lifecycle { state: TimerState::Running, timer_task: true, consumer_task: true }
    }

    /// What a stop has to wait for. A timer that is no longer running is left
    /// alone, its task included; the consumer is waited for whenever it is
    /// attached.
    pub open spec fn stop_plan(self) -> StopPlan {
        StopPlan {
            join_timer: self.state == TimerState::Running && self.timer_task,
            join_consumer: self.consumer_task,
        }
    }

    /// After a stop: the timer is stopped, and the tasks waited for are gone.
    pub open spec fn after_stop(self) -> Lifecycle {
        Lifecycle {
            state: TimerState::Stopped,
            timer_task: self.state != TimerState::Running && self.timer_task,
            consumer_task: false,
        }
    }

    /// After the timer's task has sent a tick: a tick that nobody received
    /// stops the timer.
    pub open spec fn after_send(self, delivered: bool) -> Lifecycle {
        Lifecycle { state: Timer::state_after_send(self.state, delivered), ..self }
    }

    /// What the consumer task is told: to go on while the timer runs.
    pub open spec fn consumer_action(self) -> ConsumerAction {
        match self.state {
            TimerState::Running => ConsumerAction::AwaitTick,
            TimerState::Stopped => ConsumerAction::Exit,
        }
    }
}

/// Start, stop and a failed send all keep a coherent lifecycle coherent.
pub proof fn lemma_lifecycle_stays_coherent(lifecycle: Lifecycle, delivered: bool)
    requires
        lifecycle.coherent(),
    ensures
        Lifecycle::idle().coherent(),
        lifecycle.after_start().coherent(),
        lifecycle.after_stop().coherent(),
        lifecycle.after_send(delivered).coherent(),
{
}

/// Stopping a running engine ends both background tasks and leaves nothing
/// behind: the caller is told to wait for both, each task is told to exit at
/// its next step, no task stays attached, and the engine can be started
/// again, which attaches two new tasks and has both at work.
pub proof fn lemma_stop_ends_both_tasks(lifecycle: Lifecycle, interval_ms: u64)
    requires
        lifecycle.coherent(),
        lifecycle.state == TimerState::Running,
    ensures
        lifecycle.stop_plan() == (StopPlan { join_timer: true, join_consumer: true }),
        lifecycle.after_stop() == Lifecycle::idle(),
        lifecycle.after_stop().consumer_action() == ConsumerAction::Exit,
        Timer::action_in(lifecycle.after_stop().state, interval_ms) == TimerAction::Exit,
        lifecycle.after_stop().after_start().state == TimerState::Running,
        lifecycle.after_stop().after_start().coherent(),
        lifecycle.after_stop().after_start().consumer_action() == ConsumerAction::AwaitTick,
        Timer::action_in(lifecycle.after_stop().after_start().state, interval_ms)
            == (TimerAction::SleepThenSend { interval_ms }),
{
}

} // verus!
