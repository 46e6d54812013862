//! Power actions.

use lightd::services::async_power::{
    do_docker_kill, do_start, has_exited, is_startup_message, kill_signal, startup_found,
    stop_input, strip_ansi, wait_for_startup_log, ActionTracker, AfterStart, AsyncPowerManager,
    CallReply, LogEvent, PowerAction, Signal,
};
use lightd::services::exit_wait::{EngineState, ExitWait, Look, WaitEnd};

fn state(running: Option<bool>, exit_code: Option<i64>) -> EngineState {
    EngineState {
        running,
        paused: None,
        restarting: None,
        oom_killed: None,
        dead: None,
        exit_code,
    }
}

fn show(signals: &[Signal]) -> Vec<String> {
    signals.iter().map(|s| format!("{:?}", s)).collect()
}

#[test]
fn one_action_at_a_time_but_for_a_kill() {
    let mut tracker = ActionTracker::new();
    assert!(tracker.try_start("c", PowerAction::Start));
    for other in [PowerAction::Start, PowerAction::Stop, PowerAction::Restart] {
        assert!(!tracker.try_start("c", other));
        assert_eq!(tracker.current_action("c"), Some(PowerAction::Start));
    }
    assert!(tracker.try_start("d", PowerAction::Stop));
    assert!(tracker.try_start("c", PowerAction::Kill));
    assert_eq!(tracker.current_action("c"), Some(PowerAction::Kill));
    tracker.finish("c");
    assert_eq!(tracker.current_action("c"), None);
    assert_eq!(tracker.current_action("d"), Some(PowerAction::Stop));
    assert!(tracker.try_start("c", PowerAction::Restart));
}

#[test]
fn runtime_outlives_actions() {
    let mut manager = AsyncPowerManager::new();
    manager.set_runtime("c", "Done", "stop");
    manager.start("c".to_string(), "u".to_string()).unwrap();
    manager.finish("c");
    let runtime = manager.tracker.get_runtime("c").unwrap();
    assert_eq!((runtime.start_up.as_str(), runtime.stop.as_str()), ("Done", "stop"));
    assert!(manager.tracker.get_runtime("d").is_none());
}

#[test]
fn start_watches_the_log_where_there_is_a_pattern() {
    let mut manager = AsyncPowerManager::new();
    manager.set_runtime("c", "Done", "");
    let (signals, job) = manager.start("c".to_string(), "u".to_string()).unwrap();
    assert_eq!(show(&signals), ["Started(Start)", "State(\"starting\")"]);
    assert_eq!(manager.has_pending_action("c").as_deref(), Some("start"));
    match job.started(&CallReply::Done) {
        AfterStart::Watch(pattern, signals) => {
            assert_eq!(pattern, "Done");
            assert_eq!(
                show(&signals),
                [
                    "State(\"running\")",
                    "Completed { action: Start, success: true, message: \"started\" }",
                    "Finish"
                ]
            );
        }
        AfterStart::Done(_) => panic!("the log is to be watched"),
    }
}

#[test]
fn start_without_a_pattern_runs_at_once() {
    let mut manager = AsyncPowerManager::new();
    manager.set_runtime("c", "", "");
    let (_, job) = manager.start("c".to_string(), "u".to_string()).unwrap();
    assert!(matches!(job.started(&CallReply::Failed("is already running".to_string())), AfterStart::Done(_)));
    let (_, job) = manager.start("d".to_string(), "u".to_string()).unwrap();
    match job.started(&CallReply::TimedOut) {
        AfterStart::Done(signals) => assert_eq!(
            show(&signals),
            [
                "State(\"stopped\")",
                "Completed { action: Start, success: false, message: \"Timeout starting container\" }",
                "Finish"
            ]
        ),
        AfterStart::Watch(..) => panic!("nothing to watch"),
    }
    let again = manager.start("c".to_string(), "u".to_string());
    assert_eq!(again.unwrap_err(), "Container c already has an action in progress");
}

#[test]
fn stop_writes_the_command_and_waits() {
    let mut manager = AsyncPowerManager::new();
    manager.set_runtime("c", "", "save-all");
    let (signals, job) = manager.stop("c".to_string(), "u".to_string()).unwrap();
    assert_eq!(show(&signals), ["Started(Stop)", "State(\"stopping\")"]);
    assert_eq!(job.input().as_deref(), Some("save-all\n"));
    let (signals, next) = job.exited();
    assert!(next.is_none());
    assert_eq!(
        show(&signals),
        [
            "State(\"stopped\")",
            "Completed { action: Stop, success: true, message: \"stopped\" }",
            "Finish"
        ]
    );
    let (_, job) = manager.stop("d".to_string(), "u".to_string()).unwrap();
    assert!(job.input().is_none());
    assert!(manager.stop("d".to_string(), "u".to_string()).is_err());
}

#[test]
fn kill_may_begin_at_any_time() {
    let mut manager = AsyncPowerManager::new();
    manager.stop("c".to_string(), "u".to_string()).unwrap();
    let (signals, job) = manager.kill("c".to_string(), "u".to_string()).unwrap();
    assert_eq!(show(&signals), ["Started(Kill)", "State(\"stopping\")"]);
    assert_eq!(manager.has_pending_action("c").as_deref(), Some("kill"));
    let calls: Vec<String> = job.calls().iter().map(|c| format!("{:?}", c)).collect();
    assert_eq!(
        calls,
        ["Stop(\"c\")", "Signal { container_id: \"c\", signal: \"SIGTERM\" }"]
    );
    let signals = job.killed(&CallReply::Failed("broken".to_string()));
    assert_eq!(
        show(&signals),
        [
            "State(\"stopped\")",
            "Completed { action: Kill, success: false, message: \"broken\" }",
            "Finish"
        ]
    );
    assert_eq!(kill_signal(), "SIGTERM");
}

#[test]
fn restart_stops_and_starts() {
    let mut manager = AsyncPowerManager::new();
    manager.set_runtime("c", "up", "^C");
    let (signals, job) = manager.restart("c".to_string(), "u".to_string()).unwrap();
    assert_eq!(
        show(&signals),
        ["Started(Restart)", "State(\"stopping\")", "Message(\"Stopping container...\")"]
    );
    assert_eq!(job.input().as_deref(), Some("\u{3}"));
    let (signals, next) = job.exited();
    assert_eq!(
        show(&signals),
        [
            "State(\"stopped\")",
            "Pause(500)",
            "State(\"starting\")",
            "Message(\"Starting container...\")"
        ]
    );
    match next.unwrap().started(&CallReply::Done) {
        AfterStart::Watch(pattern, signals) => {
            assert_eq!(pattern, "up");
            assert!(show(&signals)[1].contains("restarted"));
        }
        AfterStart::Done(_) => panic!("the log is to be watched"),
    }
    assert!(manager.restart("c".to_string(), "u".to_string()).is_err());
}

fn states(signals: &[Signal]) -> Vec<String> {
    signals
        .iter()
        .filter_map(|s| match s {
            Signal::State(state) => Some(state.clone()),
            _ => None,
        })
        .collect()
}

#[test]
fn states_are_told_in_order() {
    let mut manager = AsyncPowerManager::new();
    let (mut signals, stop) = manager.restart("c".to_string(), "u".to_string()).unwrap();
    let (turn, start) = stop.exited();
    signals.extend(turn);
    match start.unwrap().started(&CallReply::Failed("no".to_string())) {
        AfterStart::Done(end) => signals.extend(end),
        AfterStart::Watch(..) => panic!("nothing to watch"),
    }
    assert_eq!(states(&signals), ["stopping", "stopped", "starting", "stopped"]);
    let (mut signals, kill) = manager.kill("c".to_string(), "u".to_string()).unwrap();
    signals.extend(kill.killed(&CallReply::Done));
    assert_eq!(states(&signals), ["stopping", "stopped"]);
}

#[test]
fn failures_of_the_engine_are_judged() {
    assert!(do_start(&CallReply::Done).is_ok());
    assert!(do_start(&CallReply::Failed("container already started".to_string())).is_ok());
    assert!(do_start(&CallReply::Failed("it is already running".to_string())).is_ok());
    assert_eq!(do_start(&CallReply::Failed("no".to_string())).unwrap_err(), "no");
    assert_eq!(do_start(&CallReply::TimedOut).unwrap_err(), "Timeout starting container");
    assert!(do_docker_kill(&CallReply::Failed("c is not running".to_string())).is_ok());
    assert!(do_docker_kill(&CallReply::Failed("No such container: c".to_string())).is_ok());
    assert_eq!(do_docker_kill(&CallReply::Failed("no".to_string())).unwrap_err(), "no");
    assert_eq!(do_docker_kill(&CallReply::TimedOut).unwrap_err(), "Timeout killing container");
}

#[test]
fn stop_commands_become_input() {
    for interrupt in ["^c", "^C", "^^c", " ^^C \n"] {
        assert_eq!(stop_input(interrupt), "\u{3}");
    }
    assert_eq!(stop_input("stop"), "stop\n");
    assert_eq!(stop_input(" stop "), " stop \n");
    assert_eq!(stop_input("^^^c"), "^^^c\n");
}

#[test]
fn exit_is_seen() {
    assert!(has_exited(&Ok(Some(state(Some(false), None)))));
    assert!(has_exited(&Ok(Some(state(None, None)))));
    assert!(!has_exited(&Ok(Some(state(Some(true), None)))));
    assert!(!has_exited(&Ok(None)));
    assert!(has_exited(&Err("No such container: c".to_string())));
    assert!(!has_exited(&Err("socket".to_string())));
}

#[test]
fn control_sequences_are_removed() {
    assert_eq!(strip_ansi("\u{1b}[32mDone\u{1b}[0m!"), "Done!");
    assert_eq!(strip_ansi("plain"), "plain");
    assert_eq!(strip_ansi("\u{1b}x"), "\u{1b}x");
    assert_eq!(strip_ansi("a\u{1b}"), "a\u{1b}");
    assert_eq!(strip_ansi("a\u{1b}[12;3"), "a");
    assert_eq!(strip_ansi("\u{1b}\u{1b}[m["), "\u{1b}[");
}

#[test]
fn startup_is_found_in_the_log() {
    let log = b"\x1b[33m[12:00:00] Done (3.2s)!\x1b[0m".to_vec();
    assert!(is_startup_message(r"Done \(\d+\.\d+s\)!", &log));
    assert!(!is_startup_message(r"^Done", &log));
    // Not a regular expression: looked for as it is.
    assert!(is_startup_message("(3.2s", &log));
    assert!(!is_startup_message("(9.9s", &log));
    assert!(startup_found("x", "y", Some(true)));
    assert!(!startup_found("x", "x", Some(false)));
    assert!(startup_found("x", "axb", None));
}

#[test]
fn watch_of_the_log_ends() {
    let done = LogEvent::Message(b"Server ready".to_vec());
    assert_eq!(wait_for_startup_log("ready", &done), Some(true));
    assert_eq!(wait_for_startup_log("steady", &done), None);
    for event in [LogEvent::Deadline, LogEvent::Failed, LogEvent::Ended] {
        assert_eq!(wait_for_startup_log("ready", &event), Some(false));
    }
}

#[test]
fn wait_for_a_script_is_bounded() {
    let mut wait = ExitWait::new(600);
    let mut looks = 0;
    while let Some(next) = wait.paused() {
        wait = next;
        looks += 1;
        assert!(ExitWait::looked(&Look::State(state(Some(true), None))).is_none());
    }
    assert_eq!(looks, 300);
    assert_eq!(wait.waited, 600);
    assert!(ExitWait::new(1).paused().is_none());
    assert!(ExitWait::new(0).paused().is_none());
}

#[test]
fn end_of_a_script_is_judged() {
    assert_eq!(ExitWait::looked(&Look::State(state(Some(false), Some(0)))), Some(WaitEnd::Exited(0)));
    assert_eq!(ExitWait::looked(&Look::State(state(None, Some(3)))), Some(WaitEnd::Exited(3)));
    assert_eq!(ExitWait::looked(&Look::State(state(Some(false), None))), Some(WaitEnd::Exited(-1)));
    assert_eq!(ExitWait::looked(&Look::Nothing), None);
    assert_eq!(ExitWait::looked(&Look::Lost), Some(WaitEnd::Lost));
    assert!(WaitEnd::Exited(0).is_success());
    for end in [WaitEnd::Exited(1), WaitEnd::Exited(-1), WaitEnd::Lost, WaitEnd::TimedOut] {
        assert!(!end.is_success());
    }
}
