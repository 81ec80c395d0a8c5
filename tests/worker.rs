use fanctl::cli::Command;
use fanctl::controller::{FanController, FanControllerConfig, FanState};
use fanctl::wire::decode_command;
use fanctl::worker::{handle_event, Action, Event};

fn reply(a: Action) -> String {
    match a {
        Action::Reply(t) => t,
        other => panic!("expected a reply, got {:?}", other),
    }
}

#[test]
fn tick_updates_and_sets_fan() {
    let mut c = FanController::new(FanControllerConfig::default());
    let a = handle_event(&mut c, Event::Tick(72_000));
    assert!(matches!(a, Action::SetFan(2)));
    assert_eq!(c.smoothed_temp, 43_200);
    c.smoothed_temp = 75_000;
    let a = handle_event(&mut c, Event::Tick(75_000));
    assert!(matches!(a, Action::SetFan(0)));
    assert_eq!(c.fan_state, FanState::Enabled);
}

#[test]
fn status_requests_leave_state_alone() {
    let mut c = FanController::new(FanControllerConfig::default());
    handle_event(&mut c, Event::Tick(55_500));
    let before = (c.smoothed_temp, c.latest_temp, c.fan_state, c.next_read);
    let first = reply(handle_event(&mut c, Event::Request(Command::Status)));
    let second = reply(handle_event(&mut c, Event::Request(Command::Status)));
    assert_eq!(first, second);
    assert_eq!(first, "Temp: 55.5\nState: auto");
    assert_eq!(before, (c.smoothed_temp, c.latest_temp, c.fan_state, c.next_read));
}

#[test]
fn daemon_request_does_nothing() {
    let mut c = FanController::new(FanControllerConfig::default());
    handle_event(&mut c, Event::Tick(30_000));
    let next = c.next_read;
    assert!(matches!(handle_event(&mut c, Event::Request(Command::Daemon)), Action::Nothing));
    assert_eq!(c.next_read, next);
    assert_eq!(c.latest_temp, 30_000);
}

#[test]
fn status_around_a_tick_sees_one_whole_state() {
    let mut c = FanController::new(FanControllerConfig::default());
    c.smoothed_temp = 69_000;
    c.latest_temp = 69_000;
    let before = reply(handle_event(&mut c, Event::Request(Command::Status)));
    assert_eq!(before, "Temp: 69\nState: auto");
    handle_event(&mut c, Event::Tick(75_000));
    let after_one = reply(handle_event(&mut c, Event::Request(Command::Status)));
    let after_two = reply(handle_event(&mut c, Event::Request(Command::Status)));
    assert_eq!(after_one, "Temp: 75\nState: enabled");
    assert_eq!(after_one, after_two);
}

#[test]
fn malformed_request_reaches_no_worker() {
    let mut c = FanController::new(FanControllerConfig::default());
    handle_event(&mut c, Event::Tick(50_000));
    let next = c.next_read;
    assert_eq!(decode_command(b"{not json"), None);
    assert!(matches!(handle_event(&mut c, Event::Tick(50_000)), Action::SetFan(2)));
    assert_eq!(c.next_read, next + 5_000);
}

#[test]
fn deadline_overflow_is_reported_and_state_kept() {
    let mut c = FanController::new(FanControllerConfig::default());
    c.next_read = u64::MAX - 10_000;
    let a = handle_event(&mut c, Event::Tick(50_000));
    assert!(matches!(a, Action::DeadlineOverflow));
    assert_eq!(c.next_read, u64::MAX - 10_000);
    assert_eq!(c.latest_temp, 0);
    c.next_read = u64::MAX - 30_000;
    assert!(matches!(handle_event(&mut c, Event::Tick(50_000)), Action::SetFan(2)));
    assert_eq!(c.next_read, u64::MAX - 25_000);
}
