use xcode_discord_rpc::connection::ConnectionState;
use xcode_discord_rpc::presence::DisplayOptions;
use xcode_discord_rpc::sync_loop::{Action, Event, Phase, SyncLoop};

const BOTH: DisplayOptions = DisplayOptions { show_file: true, show_project: true };

fn polled(project: &str, file: &str, now: i64) -> Event {
    Event::Polled { project: project.to_string(), file: file.to_string(), now }
}

fn connected_loop() -> SyncLoop {
    let mut l = SyncLoop::new(BOTH, 0);
    assert!(matches!(l.begin(), Action::CheckRunning));
    assert!(matches!(l.step(Event::Running(true)), Action::Connect));
    assert!(matches!(l.step(Event::ConnectDone(true)), Action::Poll));
    l
}

fn publish_tick(l: &mut SyncLoop, project: &str, file: &str, now: i64) -> i64 {
    let started = match l.step(polled(project, file, now)) {
        Action::Publish(p) => p.started_at,
        _ => panic!("expected a publish"),
    };
    assert!(matches!(l.step(Event::PublishDone(true)), Action::Wait));
    assert!(matches!(l.step(Event::Waited), Action::CheckRunning));
    assert!(matches!(l.step(Event::Running(true)), Action::Poll));
    started
}

#[test]
fn not_running_never_connects() {
    let mut l = SyncLoop::new(BOTH, 0);
    assert!(matches!(l.begin(), Action::CheckRunning));
    for _ in 0..4 {
        assert!(matches!(l.step(Event::Running(false)), Action::Wait));
        assert_eq!(l.phase(), Phase::Idle);
        assert!(matches!(l.step(Event::Waited), Action::CheckRunning));
    }
    assert!(matches!(l.step(Event::ProbeFailed), Action::Wait));
    assert!(matches!(l.step(Event::Waited), Action::CheckRunning));
}

#[test]
fn three_connect_failures_retry() {
    let mut l = SyncLoop::new(BOTH, 0);
    assert!(matches!(l.begin(), Action::CheckRunning));
    assert!(matches!(l.step(Event::Running(true)), Action::Connect));
    for _ in 0..3 {
        assert!(matches!(l.step(Event::ConnectDone(false)), Action::Wait));
        assert_eq!(l.connection_state(), ConnectionState::Disconnected);
        assert!(matches!(l.step(Event::Waited), Action::Connect));
    }
    assert!(matches!(l.step(Event::ConnectDone(true)), Action::Poll));
    assert_eq!(l.connection_state(), ConnectionState::Connected);
}

#[test]
fn liveness_is_rechecked_every_cycle() {
    let mut l = SyncLoop::new(BOTH, 0);
    l.begin();
    assert!(matches!(l.step(Event::Running(true)), Action::Connect));
    for _ in 0..4 {
        assert!(matches!(l.step(Event::ConnectDone(false)), Action::Wait));
        assert!(matches!(l.step(Event::Waited), Action::Connect));
    }
    assert!(matches!(l.step(Event::ConnectDone(false)), Action::Wait));
    assert!(matches!(l.step(Event::Waited), Action::CheckRunning));
}

#[test]
fn project_sequence_over_four_ticks() {
    let mut l = connected_loop();
    let t1 = publish_tick(&mut l, "", "", 100);
    let t2 = publish_tick(&mut l, "Foo", "a.swift", 130);
    let t3 = publish_tick(&mut l, "Foo", "b.swift", 160);
    let t4 = publish_tick(&mut l, "Bar", "c.swift", 190);
    assert_eq!(t1, 100);
    assert_eq!(t2, 130);
    assert_eq!(t3, 130);
    assert_eq!(t4, 190);
    assert_eq!(l.session_start(), 190);
}

#[test]
fn published_payload_is_composed() {
    let mut l = connected_loop();
    match l.step(polled("MyApp", "main.swift", 5)) {
        Action::Publish(p) => {
            assert_eq!(p.details, "Working on main.swift");
            assert_eq!(p.state, "in MyApp");
            assert_eq!(p.large_icon_key, "swift");
            assert_eq!(p.started_at, 5);
        }
        _ => panic!("expected a publish"),
    }
}

#[test]
fn publish_failure_reconnects() {
    let mut l = connected_loop();
    assert!(matches!(l.step(polled("Foo", "x.c", 1)), Action::Publish(_)));
    assert!(matches!(l.step(Event::PublishDone(false)), Action::Wait));
    assert_eq!(l.connection_state(), ConnectionState::Disconnected);
    assert!(matches!(l.step(Event::Waited), Action::Connect));
    assert!(matches!(l.step(Event::ConnectDone(true)), Action::Poll));
    match l.step(polled("Foo", "x.c", 9)) {
        Action::Publish(p) => assert_eq!(p.started_at, 9),
        _ => panic!("expected a publish"),
    }
}

#[test]
fn probe_failure_while_polling_ends_tick() {
    let mut l = connected_loop();
    assert!(matches!(l.step(Event::ProbeFailed), Action::Wait));
    assert_eq!(l.connection_state(), ConnectionState::Connected);
    assert!(matches!(l.step(Event::Waited), Action::Poll));
}

#[test]
fn liveness_loss_disconnects() {
    let mut l = connected_loop();
    publish_tick(&mut l, "Foo", "a.rb", 1);
    assert!(matches!(l.step(polled("Foo", "a.rb", 2)), Action::Publish(_)));
    assert!(matches!(l.step(Event::PublishDone(true)), Action::Wait));
    assert!(matches!(l.step(Event::Waited), Action::CheckRunning));
    assert!(matches!(l.step(Event::Running(false)), Action::Wait));
    assert_eq!(l.connection_state(), ConnectionState::Disconnected);
    assert!(matches!(l.step(Event::Waited), Action::CheckRunning));
}

#[test]
fn unexpected_event_ends_tick() {
    let mut l = connected_loop();
    assert!(matches!(l.step(Event::PublishDone(true)), Action::Wait));
    assert_eq!(l.phase(), Phase::Idle);
}
