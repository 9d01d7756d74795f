use idle_terminal::continuum::{Timer, TimerAction, TimerState};

#[test]
fn new_timer_is_stopped() {
    let timer = Timer::new(50);
    assert_eq!(timer.state(), TimerState::Stopped);
    assert_eq!(timer.next_action(), TimerAction::Exit);
}

#[test]
fn start_runs_the_timer_at_its_interval() {
    let mut timer = Timer::new(50);
    assert_eq!(timer.start(), 50);
    assert_eq!(timer.state(), TimerState::Running);
    assert_eq!(timer.next_action(), TimerAction::SleepThenSend { interval_ms: 50 });
}

#[test]
fn stop_hands_the_task_over_once() {
    let mut timer = Timer::new(50);
    assert!(!timer.stop());
    timer.start();
    assert!(timer.stop());
    assert_eq!(timer.state(), TimerState::Stopped);
    assert_eq!(timer.next_action(), TimerAction::Exit);
    assert!(!timer.stop());
}

#[test]
fn delivered_tick_keeps_the_timer_running() {
    let mut timer = Timer::new(50);
    timer.start();
    timer.on_send(true);
    assert_eq!(timer.state(), TimerState::Running);
    assert_eq!(timer.next_action(), TimerAction::SleepThenSend { interval_ms: 50 });
}

#[test]
fn undelivered_tick_stops_the_timer() {
    let mut timer = Timer::new(50);
    timer.start();
    timer.on_send(false);
    assert_eq!(timer.state(), TimerState::Stopped);
    assert_eq!(timer.next_action(), TimerAction::Exit);
    // the task that gave up is still there to be waited for
    assert!(timer.stop());
}

#[test]
fn timer_can_be_started_again_after_stop() {
    let mut timer = Timer::new(20);
    timer.start();
    timer.stop();
    assert_eq!(timer.start(), 20);
    assert_eq!(timer.state(), TimerState::Running);
    assert!(timer.stop());
}

#[test]
fn send_outcome_on_a_stopped_timer_changes_nothing() {
    let mut timer = Timer::new(20);
    timer.on_send(true);
    assert_eq!(timer.state(), TimerState::Stopped);
    timer.on_send(false);
    assert_eq!(timer.state(), TimerState::Stopped);
    assert!(!timer.stop());
}
