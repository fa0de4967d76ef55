use auto_display::reconcile::{power_decision, Command, Input, Phase, Reconciler};
use auto_display::ConnectionState::{Connected, Disconnected};

#[test]
fn connect_to_dark_display_powers_on_regardless_of_idle() {
    for idle in [0u64, 1, 899_000, 900_000, 901_000, u64::MAX] {
        assert_eq!(power_decision(false, Connected, idle, 900), Some(true));
    }
}

#[test]
fn long_idle_disconnect_powers_off() {
    assert_eq!(power_decision(true, Disconnected, 901_000, 900), Some(false));
}

#[test]
fn recent_activity_disconnect_keeps_display_on() {
    assert_eq!(power_decision(true, Disconnected, 899_000, 900), None);
    assert_eq!(power_decision(true, Disconnected, 900_000, 900), None);
    assert_eq!(power_decision(true, Disconnected, 900_001, 900), Some(false));
}

#[test]
fn no_op_rows() {
    assert_eq!(power_decision(true, Connected, 0, 900), None);
    assert_eq!(power_decision(true, Connected, 10_000_000, 900), None);
    assert_eq!(power_decision(false, Disconnected, 10_000_000, 900), None);
}

#[test]
fn huge_timeout_does_not_overflow() {
    assert_eq!(power_decision(true, Disconnected, u64::MAX, u64::MAX), None);
    assert_eq!(power_decision(true, Disconnected, u64::MAX, 0), Some(false));
}

#[test]
fn connect_runs_one_write() {
    let mut r = Reconciler::new(900);
    assert_eq!(r.command(), Command::ReadEvent);
    r.step(Input::Event(Connected));
    assert_eq!(r.command(), Command::QueryIdle);
    r.step(Input::IdleTime(5));
    assert_eq!(r.command(), Command::QueryPower);
    r.step(Input::PowerState(false));
    assert_eq!(r.command(), Command::SetPower(true));
    r.step(Input::WriteDone);
    assert_eq!(r.command(), Command::ReadEvent);
}

#[test]
fn disconnect_after_long_idle_runs_power_off() {
    let mut r = Reconciler::new(900);
    r.step(Input::Event(Disconnected));
    r.step(Input::IdleTime(901_000));
    r.step(Input::PowerState(true));
    assert_eq!(r.command(), Command::SetPower(false));
    r.step(Input::WriteDone);
    assert_eq!(r.current_phase(), Phase::Waiting);
}

#[test]
fn disconnect_after_short_idle_writes_nothing() {
    let mut r = Reconciler::new(900);
    r.step(Input::Event(Disconnected));
    r.step(Input::IdleTime(899_000));
    r.step(Input::PowerState(true));
    assert_eq!(r.command(), Command::ReadEvent);
}

#[test]
fn second_event_waits_for_first() {
    let mut r = Reconciler::new(900);
    r.step(Input::Event(Connected));
    // an event handed in while the first is handled is not taken
    r.step(Input::Event(Disconnected));
    assert_eq!(r.current_phase(), Phase::QueryingIdle(Connected));
    r.step(Input::IdleTime(0));
    r.step(Input::Event(Disconnected));
    assert_eq!(r.command(), Command::QueryPower);
    r.step(Input::PowerState(false));
    r.step(Input::Event(Disconnected));
    assert_eq!(r.command(), Command::SetPower(true));
    r.step(Input::WriteDone);
    assert_eq!(r.command(), Command::ReadEvent);
    r.step(Input::Event(Disconnected));
    assert_eq!(r.current_phase(), Phase::QueryingIdle(Disconnected));
}

#[test]
fn failures_stop_the_loop() {
    let mut r = Reconciler::new(900);
    r.step(Input::StreamFailed);
    assert_eq!(r.command(), Command::Fail);
    r.step(Input::Event(Connected));
    assert_eq!(r.command(), Command::Fail);

    let mut r = Reconciler::new(900);
    r.step(Input::Event(Connected));
    r.step(Input::OperationFailed);
    assert_eq!(r.command(), Command::Fail);

    let mut r = Reconciler::new(900);
    r.step(Input::Event(Connected));
    r.step(Input::IdleTime(0));
    r.step(Input::PowerState(false));
    r.step(Input::OperationFailed);
    assert_eq!(r.command(), Command::Fail);
}

#[test]
fn end_of_stream_finishes() {
    let mut r = Reconciler::new(900);
    r.step(Input::StreamEnded);
    assert_eq!(r.command(), Command::Finish);
}
