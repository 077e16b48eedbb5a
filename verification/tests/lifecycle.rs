use green_dot::bridge::{
    command_for_payload, directive_for_menu_click, left_click_directive, navigate_event_name,
    settings_target, str_eq, tray_event_name, TrayDirective,
};
use green_dot::config::Config;
use green_dot::lifecycle::{
    classify_outcome, ControllerEvent, HandleOutcome, LifecycleCommand, LifecycleController,
    LifecycleError, LifecycleResult, RunState, WorkerVerb,
};
use green_dot::present::{menu_state, presenter_react, tray_menu_layout, TrayItem};
use green_dot::worker::{
    derive_start_args, lifecycle_outcome, status_outcome, worker_args, SpawnCapture,
};

fn start_success() -> LifecycleResult {
    LifecycleResult::Success("Green Dot started successfully".to_string())
}

fn failure(why: &str) -> LifecycleResult {
    LifecycleResult::Failure(why.to_string())
}

#[test]
fn menu_matches_guard_table() {
    let stopped = menu_state(RunState::Stopped);
    assert!(stopped.start_enabled && !stopped.pause_enabled && !stopped.stop_enabled);
    let running = menu_state(RunState::Running);
    assert!(!running.start_enabled && running.pause_enabled && running.stop_enabled);
    let paused = menu_state(RunState::Paused);
    assert!(!paused.start_enabled && paused.pause_enabled && paused.stop_enabled);
}

#[test]
fn start_stop_start_is_legal_and_double_start_is_rejected() {
    let mut c = LifecycleController::new(Config::default());
    assert_eq!(c.state, RunState::Stopped);

    match c.handle(LifecycleCommand::Start) {
        HandleOutcome::Invoke(WorkerVerb::Start, _) => {}
        other => panic!("start from stopped should invoke the worker: {:?}", other),
    }
    assert_eq!(c.state, RunState::Stopped); // never advances speculatively
    let ev = c.complete(LifecycleCommand::Start, &start_success());
    assert!(matches!(ev, ControllerEvent::StateChanged(RunState::Running)));
    assert_eq!(c.state, RunState::Running);

    // a second start without an intervening stop is rejected
    match c.handle(LifecycleCommand::Start) {
        HandleOutcome::Rejected(LifecycleError::InvalidTransition(s, cmd)) => {
            assert_eq!(s, RunState::Running);
            assert_eq!(cmd, LifecycleCommand::Start);
        }
        other => panic!("double start should be rejected: {:?}", other),
    }
    assert_eq!(c.state, RunState::Running);

    match c.handle(LifecycleCommand::Stop) {
        HandleOutcome::Invoke(WorkerVerb::Stop, _) => {}
        other => panic!("stop from running should invoke the worker: {:?}", other),
    }
    let ev = c.complete(
        LifecycleCommand::Stop,
        &LifecycleResult::Success("Green Dot stopped successfully".to_string()),
    );
    assert!(matches!(ev, ControllerEvent::StateChanged(RunState::Stopped)));
    assert_eq!(c.state, RunState::Stopped);

    // starting again is legal
    match c.handle(LifecycleCommand::Start) {
        HandleOutcome::Invoke(WorkerVerb::Start, _) => {}
        other => panic!("start after stop should invoke the worker: {:?}", other),
    }
}

#[test]
fn pause_only_in_running_resume_only_in_paused() {
    let mut c = LifecycleController::new(Config::default());

    // both are illegal in Stopped, rejected without any worker invocation
    assert!(matches!(
        c.handle(LifecycleCommand::Pause),
        HandleOutcome::Rejected(LifecycleError::InvalidTransition(RunState::Stopped, _))
    ));
    assert!(matches!(
        c.handle(LifecycleCommand::Resume),
        HandleOutcome::Rejected(LifecycleError::InvalidTransition(RunState::Stopped, _))
    ));
    assert_eq!(c.state, RunState::Stopped);

    c.handle(LifecycleCommand::Start);
    c.complete(LifecycleCommand::Start, &start_success());
    assert_eq!(c.state, RunState::Running);

    // resume is illegal in Running
    assert!(matches!(
        c.handle(LifecycleCommand::Resume),
        HandleOutcome::Rejected(LifecycleError::InvalidTransition(RunState::Running, _))
    ));
    // pause is a local transition: no worker invocation
    match c.handle(LifecycleCommand::Pause) {
        HandleOutcome::Done(ControllerEvent::StateChanged(RunState::Paused)) => {}
        other => panic!("pause in running should complete locally: {:?}", other),
    }
    assert_eq!(c.state, RunState::Paused);

    // pause is illegal in Paused
    assert!(matches!(
        c.handle(LifecycleCommand::Pause),
        HandleOutcome::Rejected(LifecycleError::InvalidTransition(RunState::Paused, _))
    ));
    match c.handle(LifecycleCommand::Resume) {
        HandleOutcome::Done(ControllerEvent::StateChanged(RunState::Running)) => {}
        other => panic!("resume in paused should complete locally: {:?}", other),
    }
    assert_eq!(c.state, RunState::Running);
}

#[test]
fn stop_is_legal_from_paused() {
    let mut c = LifecycleController::new(Config::default());
    c.handle(LifecycleCommand::Start);
    c.complete(LifecycleCommand::Start, &start_success());
    c.handle(LifecycleCommand::Pause);
    assert_eq!(c.state, RunState::Paused);
    assert!(matches!(
        c.handle(LifecycleCommand::Stop),
        HandleOutcome::Invoke(WorkerVerb::Stop, _)
    ));
}

#[test]
fn failed_start_keeps_stopped_and_menu_disabled() {
    let mut c = LifecycleController::new(Config::default());
    assert!(matches!(
        c.handle(LifecycleCommand::Start),
        HandleOutcome::Invoke(WorkerVerb::Start, _)
    ));
    let ev = c.complete(LifecycleCommand::Start, &failure("worker exploded"));
    assert_eq!(c.state, RunState::Stopped);
    match &ev {
        ControllerEvent::TransitionFailed(LifecycleCommand::Start, why) => {
            assert_eq!(why, "worker exploded");
        }
        other => panic!("a failed start should broadcast the failure: {:?}", other),
    }
    let menu = menu_state(c.state);
    assert!(!menu.pause_enabled);
    assert!(!menu.stop_enabled);
    assert!(menu.start_enabled);
}

#[test]
fn failed_stop_keeps_state() {
    let mut c = LifecycleController::new(Config::default());
    c.handle(LifecycleCommand::Start);
    c.complete(LifecycleCommand::Start, &start_success());
    c.handle(LifecycleCommand::Stop);
    let ev = c.complete(LifecycleCommand::Stop, &failure("still busy"));
    assert_eq!(c.state, RunState::Running);
    assert!(matches!(
        ev,
        ControllerEvent::TransitionFailed(LifecycleCommand::Stop, _)
    ));
}

#[test]
fn derived_start_args_for_non_adaptive_config() {
    let cfg = Config {
        interval: 4,
        adaptive: false,
        burst: true,
        idle_check: true,
        low_priority: true,
    };
    let args = derive_start_args(&cfg);
    assert_eq!(
        args,
        vec!["start", "--silent", "--interval", "4", "--no-adaptive"]
    );
}

#[test]
fn derived_start_args_all_flags_true() {
    let cfg = Config::default();
    let args = derive_start_args(&cfg);
    assert_eq!(args, vec!["start", "--silent", "--interval", "4"]);
}

#[test]
fn derived_start_args_no_burst_and_large_interval() {
    let cfg = Config {
        interval: 4294967295,
        adaptive: true,
        burst: false,
        idle_check: false,
        low_priority: false,
    };
    let args = derive_start_args(&cfg);
    // idle_check and low_priority are never translated into arguments
    assert_eq!(
        args,
        vec!["start", "--silent", "--interval", "4294967295", "--no-burst"]
    );
}

#[test]
fn worker_args_for_stop_and_status() {
    let cfg = Config::default();
    assert_eq!(worker_args(WorkerVerb::Stop, &cfg), vec!["stop"]);
    assert_eq!(worker_args(WorkerVerb::Status, &cfg), vec!["status"]);
}

#[test]
fn lifecycle_outcome_maps_exit_status() {
    let ok = lifecycle_outcome(
        WorkerVerb::Start,
        Ok(SpawnCapture {
            success: true,
            stdout: String::new(),
            stderr: String::new(),
        }),
    );
    match ok {
        Ok(LifecycleResult::Success(m)) => assert_eq!(m, "Green Dot started successfully"),
        other => panic!("zero exit should be success: {:?}", other),
    }

    let stopped = lifecycle_outcome(
        WorkerVerb::Stop,
        Ok(SpawnCapture {
            success: true,
            stdout: String::new(),
            stderr: String::new(),
        }),
    );
    match stopped {
        Ok(LifecycleResult::Success(m)) => assert_eq!(m, "Green Dot stopped successfully"),
        other => panic!("zero exit should be success: {:?}", other),
    }

    let failed = lifecycle_outcome(
        WorkerVerb::Start,
        Ok(SpawnCapture {
            success: false,
            stdout: String::new(),
            stderr: "boom".to_string(),
        }),
    );
    match failed {
        Ok(LifecycleResult::Failure(w)) => assert_eq!(w, "boom"),
        other => panic!("non-zero exit should carry stderr: {:?}", other),
    }

    // an empty error stream is never handed on as an empty diagnostic
    let silent = lifecycle_outcome(
        WorkerVerb::Start,
        Ok(SpawnCapture {
            success: false,
            stdout: String::new(),
            stderr: String::new(),
        }),
    );
    match silent {
        Ok(LifecycleResult::Failure(w)) => assert_eq!(w, "unknown failure"),
        other => panic!("empty stderr should become the marker: {:?}", other),
    }

    let spawn_failed = lifecycle_outcome(WorkerVerb::Stop, Err("no such binary".to_string()));
    match spawn_failed {
        Err(LifecycleError::ProcessSpawnError(d)) => assert_eq!(d, "no such binary"),
        other => panic!("a spawn failure is not a worker rejection: {:?}", other),
    }
}

#[test]
fn status_outcome_returns_stdout_verbatim() {
    let r = status_outcome(Ok(SpawnCapture {
        success: true,
        stdout: "worker is alive\n".to_string(),
        stderr: String::new(),
    }));
    assert_eq!(r.unwrap(), "worker is alive\n");

    let r = status_outcome(Err("spawn denied".to_string()));
    assert!(matches!(r, Err(LifecycleError::ProcessSpawnError(_))));
}

#[test]
fn notification_exactly_on_start_and_stop_success() {
    let into_running = ControllerEvent::StateChanged(RunState::Running);
    let u = presenter_react(RunState::Running, LifecycleCommand::Start, &into_running);
    let n = u.notification.expect("start success should notify");
    assert_eq!(n.title, "Green Dot");
    assert_eq!(n.body, "Status keeper started");

    let into_stopped = ControllerEvent::StateChanged(RunState::Stopped);
    let u = presenter_react(RunState::Stopped, LifecycleCommand::Stop, &into_stopped);
    let n = u.notification.expect("stop success should notify");
    assert_eq!(n.body, "Status keeper stopped");

    // not on pause or resume
    let paused = ControllerEvent::StateChanged(RunState::Paused);
    let u = presenter_react(RunState::Paused, LifecycleCommand::Pause, &paused);
    assert!(u.notification.is_none());
    assert!(!u.menu.start_enabled && u.menu.pause_enabled && u.menu.stop_enabled);
    let resumed = ControllerEvent::StateChanged(RunState::Running);
    let u = presenter_react(RunState::Running, LifecycleCommand::Resume, &resumed);
    assert!(u.notification.is_none());

    // not on failures
    let failed = ControllerEvent::TransitionFailed(LifecycleCommand::Start, "no".to_string());
    let u = presenter_react(RunState::Stopped, LifecycleCommand::Start, &failed);
    assert!(u.notification.is_none());
    assert!(u.menu.start_enabled && !u.menu.pause_enabled && !u.menu.stop_enabled);
}

#[test]
fn tray_layout_matches_stopped_state() {
    let items = tray_menu_layout();
    assert_eq!(items.len(), 8);
    let expect_entry = |i: usize, id: &str, label: &str, enabled: bool| match &items[i] {
        TrayItem::Entry(e) => {
            assert_eq!(e.id, id);
            assert_eq!(e.label, label);
            assert_eq!(e.enabled, enabled);
        }
        TrayItem::Separator => panic!("expected an entry at {}", i),
    };
    expect_entry(0, "start", "Start", true);
    expect_entry(1, "pause", "Pause", false);
    expect_entry(2, "stop", "Stop", false);
    assert!(matches!(items[3], TrayItem::Separator));
    expect_entry(4, "dashboard", "Dashboard", true);
    expect_entry(5, "settings", "Settings", true);
    assert!(matches!(items[6], TrayItem::Separator));
    expect_entry(7, "quit", "Quit", true);
}

#[test]
fn menu_clicks_map_to_directives() {
    assert_eq!(
        directive_for_menu_click("start"),
        TrayDirective::ForwardLifecycle("start".to_string())
    );
    assert_eq!(
        directive_for_menu_click("pause"),
        TrayDirective::ForwardLifecycle("pause".to_string())
    );
    assert_eq!(
        directive_for_menu_click("stop"),
        TrayDirective::ForwardLifecycle("stop".to_string())
    );
    assert_eq!(directive_for_menu_click("dashboard"), TrayDirective::ShowWindow);
    assert_eq!(directive_for_menu_click("settings"), TrayDirective::ShowSettings);
    assert_eq!(directive_for_menu_click("quit"), TrayDirective::Quit);
    assert_eq!(directive_for_menu_click("elsewhere"), TrayDirective::Ignore);
    assert_eq!(left_click_directive(), TrayDirective::ShowWindow);
}

#[test]
fn payloads_map_to_commands() {
    assert_eq!(
        command_for_payload("start", RunState::Stopped),
        Some(LifecycleCommand::Start)
    );
    assert_eq!(
        command_for_payload("stop", RunState::Running),
        Some(LifecycleCommand::Stop)
    );
    assert_eq!(
        command_for_payload("pause", RunState::Running),
        Some(LifecycleCommand::Pause)
    );
    assert_eq!(
        command_for_payload("pause", RunState::Paused),
        Some(LifecycleCommand::Resume)
    );
    assert_eq!(command_for_payload("anything", RunState::Running), None);
}

#[test]
fn event_names_for_the_window_surface() {
    assert_eq!(tray_event_name(), "tray-event");
    assert_eq!(navigate_event_name(), "navigate");
    assert_eq!(settings_target(), "settings");
    assert!(str_eq("tray-event", "tray-event"));
    assert!(!str_eq("tray-event", "navigate"));
}

#[test]
fn error_messages_are_descriptive() {
    let invalid = LifecycleError::InvalidTransition(RunState::Running, LifecycleCommand::Start);
    assert_eq!(invalid.message(), "invalid transition: Start in state Running");
    let spawn = LifecycleError::ProcessSpawnError("no worker binary".to_string());
    assert_eq!(spawn.message(), "no worker binary");
    let rejected = LifecycleError::WorkerRejected("exit code 3".to_string());
    assert_eq!(rejected.message(), "exit code 3");
    assert_eq!(RunState::Paused.name(), "Paused");
    assert_eq!(LifecycleCommand::Resume.name(), "Resume");
}

#[test]
fn classified_outcomes_follow_the_taxonomy() {
    let ok = classify_outcome(Ok(LifecycleResult::Success("done".to_string())));
    assert_eq!(ok.unwrap(), "done");

    let rejected = classify_outcome(Ok(LifecycleResult::Failure("worker said no".to_string())));
    match rejected {
        Err(LifecycleError::WorkerRejected(w)) => assert_eq!(w, "worker said no"),
        other => panic!("a worker failure is a rejection: {:?}", other),
    }

    let spawn = classify_outcome(Err(LifecycleError::ProcessSpawnError("gone".to_string())));
    match spawn {
        Err(LifecycleError::ProcessSpawnError(d)) => assert_eq!(d, "gone"),
        other => panic!("a spawn error passes through: {:?}", other),
    }
}
