//! Connections of clients.

use lightd::models::{NetworkStats, Timestamp};
use lightd::services::async_power::PowerAction;
use lightd::services::exit_wait::EngineState;
use lightd::state_manager::ContainerState;
use lightd::table::Table;
use lightd::websocket::handler::{
    docker_action_to_state, epoch_secs, event_of_action, get_container_started_at, get_container_status,
    is_container_running, is_streaming_state, now_epoch_secs, parse_docker_timestamp_prefix,
    EngineReply,
};
use lightd::websocket::session::{
    engine_event_output, power_action, power_failure, ExitInfo, WsOutput,
};
use lightd::websocket::streams::{
    command_error, command_input, console_lines, counter_delta, execute_command, initial_log_lines,
    network_totals, next_backoff, uptime, CommandPlan, ConsoleEvent, Followed, Follower,
    LineFilter,
};
use lightd::websocket::{WebSocketHandler, WsClientMessage, WsEvent, WsMessage, WsMode};

fn strings(words: &[&str]) -> Vec<String> {
    words.iter().map(|w| w.to_string()).collect()
}

fn state(name: &str) -> ContainerState {
    ContainerState {
        state: name.to_string(),
        container_id: Some("c".to_string()),
        image: "alpine".to_string(),
        name: "server".to_string(),
        description: None,
        startup_command: None,
        disk_limit: None,
        memory_limit: None,
        cpu_limit: None,
        swap_limit: None,
        pids_limit: None,
        threads_limit: None,
        attached_volumes: Vec::new(),
        ports: Table::new(),
        env: None,
        created_at: Timestamp { secs: 0, nanos: 0 },
        updated_at: Timestamp { secs: 0, nanos: 0 },
        locked: None,
        lock_reason: None,
        locked_at: None,
        restart_policy: None,
        operation: None,
        operation_id: None,
        operation_message: None,
    }
}

fn engine(running: Option<bool>) -> EngineState {
    EngineState {
        running,
        paused: None,
        restarting: None,
        oom_killed: None,
        dead: None,
        exit_code: None,
    }
}

/// Messages as the client sees them, other outputs by name.
fn show(outputs: &[WsOutput]) -> Vec<String> {
    outputs
        .iter()
        .map(|o| match o {
            WsOutput::Send(m) => m.to_json(),
            WsOutput::Offer(m) => format!("offer {}", m.to_json()),
            other => format!("{:?}", other),
        })
        .collect()
}

fn session(status: &str) -> WebSocketHandler {
    WebSocketHandler::new("c", "u", status).0
}

#[test]
fn messages_are_written_as_json() {
    let json = |m: WsMessage| m.to_json();
    assert_eq!(
        json(WsMessage::init("c", "u", "running")),
        r#"{"event":"init","args":["c","u","running"]}"#
    );
    assert_eq!(
        json(WsMessage::console_output("say \"hi\"\n")),
        r#"{"event":"console_output","args":["[container@pkg.lat]: say \"hi\"\n"]}"#
    );
    assert_eq!(json(WsMessage::console_duplicate(3)), r#"{"event":"console_output","args":["x3"]}"#);
    assert_eq!(json(WsMessage::status("stopped")), r#"{"event":"status","args":["stopped"]}"#);
    assert_eq!(json(WsMessage::error("no")), r#"{"event":"error","args":["no"]}"#);
    assert_eq!(
        json(WsMessage::daemon_message("hello")),
        r#"{"event":"daemon_message","args":["[Lightd] hello"]}"#
    );
    assert_eq!(
        json(WsMessage::mode_changed("exec")),
        r#"{"event":"daemon_message","args":["[Lightd] WebSocket mode changed to: exec"]}"#
    );
    assert_eq!(json(WsMessage::duplicate_event("x")), r#"{"event":"duplicate_event","args":["x"]}"#);
    assert_eq!(
        json(WsMessage::docker_event("die", "stopped")),
        r#"{"event":"docker_event","args":["die","stopped"]}"#
    );
    assert_eq!(json(WsMessage::command_sent("ls")), r#"{"event":"command_sent","args":["ls"]}"#);
    assert_eq!(json(WsMessage::stats_json("{}")), r#"{"event":"stats","args":["{}"]}"#);
    assert_eq!(
        json(WsMessage::status("\u{1}\u{8}\t\u{c}\r\\\u{7f}\u{1f}\u{e9}")),
        "{\"event\":\"status\",\"args\":[\"\\u0001\\b\\t\\f\\r\\\\\u{7f}\\u001f\u{e9}\"]}"
    );
    let empty = WsMessage { event: WsEvent::Stats, args: Vec::new() };
    assert_eq!(empty.to_json(), r#"{"event":"stats","args":[]}"#);
    assert_eq!(empty.framed("[1]"), r#"{"event":"stats","args":[1]}"#);
    assert_eq!(WsMode::default(), WsMode::Attached);
}

#[test]
fn timestamps_are_taken_off() {
    assert_eq!(
        parse_docker_timestamp_prefix("2024-01-02T03:04:05.678901234Z hello world"),
        (Some(1704164645), "hello world".to_string())
    );
    assert_eq!(
        parse_docker_timestamp_prefix("2024-01-02T05:04:05+02:00 x"),
        (Some(1704164645), "x".to_string())
    );
    assert_eq!(parse_docker_timestamp_prefix("no time"), (None, "no time".to_string()));
    assert_eq!(parse_docker_timestamp_prefix("word"), (None, "word".to_string()));
    assert_eq!(get_container_started_at(&Some("1970-01-01T00:01:00Z".to_string())), Some(60));
    assert_eq!(get_container_started_at(&Some("yesterday".to_string())), None);
    assert_eq!(get_container_started_at(&None), None);
    assert!(now_epoch_secs() > 1_600_000_000);
    assert_eq!(epoch_secs(Some(77)), 77);
    assert_eq!(epoch_secs(Some(u64::MAX)), -1);
    assert_eq!(epoch_secs(None), 0);
}

#[test]
fn engine_actions_become_states() {
    assert_eq!(docker_action_to_state("unpause"), Some("running"));
    for action in ["die", "stop", "kill", "oom", "exited"] {
        assert_eq!(docker_action_to_state(action), Some("stopped"));
    }
    assert_eq!(docker_action_to_state("restart"), Some("restarting"));
    assert_eq!(docker_action_to_state("pause"), Some("paused"));
    assert_eq!(docker_action_to_state("start"), None);
    for name in ["running", "starting", "installing", "updating", "recreating", "restoring", "creating"] {
        assert!(is_streaming_state(name));
    }
    assert!(!is_streaming_state("stopped") && !is_streaming_state("paused"));
    assert!(is_container_running(Some(engine(Some(true)))));
    assert!(!is_container_running(Some(engine(None))) && !is_container_running(None));
}

#[test]
fn engine_events_are_sorted_out() {
    let event = event_of_action(" die : code=1").unwrap();
    assert_eq!((event.action.as_str(), event.state.as_str(), event.forward), ("die", "stopped", true));
    let event = event_of_action("start").unwrap();
    assert_eq!((event.action.as_str(), event.state.as_str(), event.forward), ("start", "", true));
    let event = event_of_action("exited").unwrap();
    assert!(!event.forward);
    let event = event_of_action("attach").unwrap();
    assert!(!event.forward && event.state.is_empty());
    for noise in ["", "  ", ": x", "exec_start: sh", "health_status: healthy"] {
        assert!(event_of_action(noise).is_none());
    }
    match engine_event_output("die", "stopped") {
        WsOutput::Send(m) => {
            assert_eq!(m.to_json(), r#"{"event":"docker_event","args":["die","stopped"]}"#)
        }
        other => panic!("{:?}", other),
    }
}

#[test]
fn status_comes_from_the_best_source() {
    let up = EngineReply::State(engine(Some(true)));
    let ask = |pending: Option<&str>, by_id: Option<&str>, by_uuid: Option<ContainerState>, e: &EngineReply| {
        get_container_status(
            "c",
            &pending.map(|p| p.to_string()),
            &by_id.map(state),
            &by_uuid,
            e,
        )
    };
    assert_eq!(ask(Some("start"), Some("installing"), None, &up), "starting");
    assert_eq!(ask(Some("restart"), None, None, &up), "starting");
    assert_eq!(ask(Some("kill"), None, None, &up), "stopping");
    assert_eq!(ask(Some("stop"), None, None, &up), "stopping");
    assert_eq!(ask(None, Some("installing"), None, &up), "installing");
    assert_eq!(ask(None, Some("stopped"), None, &up), "running");
    assert_eq!(ask(None, Some("stopped"), Some(state("installing")), &up), "running");
    let mut moved = state("stopped");
    moved.container_id = Some("other".to_string());
    assert_eq!(ask(None, None, Some(moved), &up), "stopped");
    assert_eq!(ask(None, None, Some(state("suspended")), &up), "suspended");
    assert_eq!(ask(None, None, Some(state("stopped")), &up), "running");
    assert_eq!(ask(None, None, None, &EngineReply::Nothing), "unknown");
    assert_eq!(ask(None, None, None, &EngineReply::Failed), "offline");
    assert_eq!(ask(None, None, None, &EngineReply::TimedOut), "timeout");
    let mut paused = engine(Some(false));
    paused.paused = Some(true);
    assert_eq!(ask(None, None, None, &EngineReply::State(paused)), "paused");
    assert_eq!(ask(None, None, None, &EngineReply::State(engine(None))), "stopped");
}

#[test]
fn repeated_lines_are_counted() {
    let mut filter = LineFilter::new();
    let mut seen = Vec::new();
    for line in ["a", "a", "a", "b", "a"] {
        seen.push(match filter.line(line) {
            ConsoleEvent::Output(text) => text,
            ConsoleEvent::Duplicate(count) => format!("x{}", count),
        });
    }
    assert_eq!(seen, ["a", "x2", "x3", "b", "a"]);
}

#[test]
fn pieces_of_output_become_events() {
    let mut filter = LineFilter::new();
    let show = |taken: (Vec<ConsoleEvent>, bool)| -> (Vec<String>, bool) {
        let events = taken
            .0
            .into_iter()
            .map(|event| match event {
                ConsoleEvent::Output(text) => text,
                ConsoleEvent::Duplicate(count) => format!("x{}", count),
            })
            .collect();
        (events, taken.1)
    };
    assert_eq!(
        show(filter.message(&b"a \na\n\nb\n".to_vec())),
        (strings(&["a", "x2", "b"]), true)
    );
    assert_eq!(
        show(filter.message(&b"b\nc\xff".to_vec())),
        (strings(&["x2", "c\u{fffd}"]), true)
    );
    // A full counter stops only at a repeat.
    filter.duplicate_count = u32::MAX;
    assert_eq!(show(filter.message(&b"d\nd\n".to_vec())), (strings(&["d", "x2"]), true));
    filter.duplicate_count = u32::MAX - 1;
    let all = b"d\nd\ne\n".to_vec();
    assert_eq!(show(filter.message(&all)), (strings(&["x4294967295"]), false));
    assert_eq!(filter.duplicate_count, u32::MAX);
}

#[test]
fn connection_is_kept_alive() {
    let mut s = session("stopped");
    assert!(s.tick(29_999).is_empty());
    assert_eq!(show(&s.tick(1)), ["Ping"]);
    assert_eq!(s.since_ping_ms, 0);
    for _ in 0..59 {
        assert!(s.tick(500).is_empty());
    }
    assert_eq!(show(&s.tick(500)), ["Ping"]);
    assert_eq!(show(&s.tick(u64::MAX)), ["Ping"]);
}

#[test]
fn commands_end_with_a_line_feed() {
    assert_eq!(command_input("say hi"), "say hi\n");
    let mut input = Follower::new(Followed::Input);
    assert_eq!((input.not_running(), input.not_running()), (100, 100));
    assert_eq!((input.ended(), input.ended()), (500, 500));
}

#[test]
fn output_is_cut_into_lines() {
    assert_eq!(console_lines(&b"one  \r\n\n  two\xff\n   \n".to_vec()), ["one", "  two\u{fffd}"]);
    assert_eq!(
        initial_log_lines(&b"2024-01-02T03:04:05Z  hello \n\nplain\n2024-01-02T03:04:05Z \n".to_vec()),
        ["hello", "plain", "2024-01-02T03:04:05Z"]
    );
}

#[test]
fn pauses_grow_to_a_bound() {
    let mut pause = 250;
    let mut seen = Vec::new();
    for _ in 0..7 {
        seen.push(pause);
        pause = next_backoff(pause, 5000);
    }
    assert_eq!(seen, [250, 500, 1000, 2000, 4000, 5000, 5000]);
    assert_eq!(next_backoff(u64::MAX, 5000), 5000);
    assert_eq!(next_backoff(3, 7), 6);
    assert_eq!(next_backoff(4, 7), 7);
}

#[test]
fn streams_are_begun_anew_after_a_pause() {
    let mut log = Follower::new(Followed::Log);
    let pauses: Vec<u64> = (0..7).map(|_| log.not_running()).collect();
    assert_eq!(pauses, [100, 200, 400, 800, 1600, 2000, 2000]);
    log.came();
    assert_eq!(log.not_running(), 2000);
    log.running();
    assert_eq!((log.ended(), log.ended(), log.not_running()), (250, 250, 100));
    for followed in [Followed::Output, Followed::Usage, Followed::Events] {
        let mut follower = Follower::new(followed);
        assert_eq!((follower.not_running(), follower.not_running()), (500, 500));
        assert_eq!((follower.ended(), follower.ended()), (250, 500));
        follower.running();
        assert_eq!(follower.ended(), 1000);
        follower.came();
        assert_eq!(follower.ended(), 250);
    }
}

#[test]
fn counters_are_summed() {
    let nets = vec![
        NetworkStats { rx_bytes: 1, tx_bytes: 10 },
        NetworkStats { rx_bytes: 2, tx_bytes: 20 },
    ];
    assert_eq!(network_totals(&nets), (3, 30));
    assert_eq!(network_totals(&Vec::new()), (0, 0));
    assert_eq!(counter_delta(7, 5), 2);
    assert_eq!(counter_delta(5, 7), 0);
    assert_eq!(uptime(Some(100), 160, 5), 60);
    assert_eq!(uptime(None, 160, 5), 5);
    assert_eq!(uptime(Some(160), 159, 5), u64::MAX);
    assert_eq!(uptime(Some(i64::MAX), i64::MIN, 5), i64::MIN as u64);
    assert_eq!(uptime(Some(i64::MIN), i64::MAX, 5), i64::MAX as u64);
}

#[test]
fn commands_are_run_by_mode() {
    match execute_command("ls", WsMode::Exec) {
        CommandPlan::Run(words) => assert_eq!(words, strings(&["sh", "-c", "ls"])),
        CommandPlan::Show(_) => panic!("the command is run"),
    }
    match execute_command("ls", WsMode::Attached) {
        CommandPlan::Show(line) => assert_eq!(line, "> ls"),
        CommandPlan::Run(_) => panic!("the command is shown"),
    }
    assert_eq!(command_error("no"), "Error: no");
}

#[test]
fn connection_opens_with_its_status() {
    let (running, outputs) = WebSocketHandler::new("c", "u", "running");
    assert_eq!(
        show(&outputs),
        [
            r#"{"event":"init","args":["c","u","running"]}"#,
            r#"offer {"event":"daemon_message","args":["[Lightd] WebSocket mode changed to: attached"]}"#,
            "StartLogs(Attached)",
            "StartStats"
        ]
    );
    assert!(running.running && running.streaming && running.has_input);
    let (stopped, outputs) = WebSocketHandler::new("c", "u", "stopped");
    assert_eq!(outputs.len(), 3);
    assert!(show(&outputs)[2].contains("Server is not running, start it!"));
    assert!(!stopped.running && !stopped.streaming && !stopped.has_input);
}

#[test]
fn stop_is_hidden_during_an_operation() {
    for operation in ["installing", "updating", "recreating", "restoring", "creating"] {
        let mut s = session("running");
        assert!(WebSocketHandler::needs_status("stopped"));
        assert!(s.begin_state_change("stopped", operation).is_none());
        assert_eq!(s.current_state, "running");
    }
}

#[test]
fn exit_is_told() {
    let mut s = session("running");
    let change = s.begin_state_change("stopped", "stopped").unwrap();
    assert!(s.needs_exit_info(&change));
    let exit = ExitInfo { exit_code: Some(3), error: Some("oops".to_string()) };
    let outputs = show(&s.finish_state_change(&change, &Some(exit)));
    assert_eq!(
        outputs,
        [
            r#"offer {"event":"daemon_message","args":["[Lightd] Container exited with code 3 - oops"]}"#,
            r#"offer {"event":"daemon_message","args":["[Lightd] WebSocket will close - reconnect to see new logs"]}"#,
            r#"{"event":"status","args":["stopped"]}"#,
            "StopLogs",
            "StopStats"
        ]
    );
    let first = |exit: ExitInfo| {
        let mut s = session("running");
        let change = s.begin_state_change("stopped", "stopped").unwrap();
        show(&s.finish_state_change(&change, &Some(exit)))[0].clone()
    };
    assert!(first(ExitInfo { exit_code: Some(3), error: None }).ends_with("code 3\"]}"));
    assert!(first(ExitInfo { exit_code: None, error: None }).contains("Container exited normally"));
    assert!(!s.streaming && !s.has_input);
}

#[test]
fn start_brings_the_startup_log() {
    let mut s = session("stopped");
    assert_eq!(
        show(&[s.power_started_at("start", 1000)])[0],
        r#"{"event":"daemon_message","args":["[Lightd] Power action started: start"]}"#
    );
    let change = s.begin_state_change("starting", "").unwrap();
    assert_eq!(show(&s.finish_state_change(&change, &None)).len(), 3);
    assert!(!s.needs_startup_logs(&change));
    let change = s.begin_state_change("running", "").unwrap();
    assert_eq!(show(&s.finish_state_change(&change, &None)).len(), 1);
    assert!(s.needs_startup_logs(&change));
    match s.startup_logs_at(None, 2000) {
        WsOutput::SendLogs { tail, since } => assert_eq!((tail.as_str(), since), ("200", 1000)),
        other => panic!("{:?}", other),
    }
    assert!(!s.send_startup_tail);
    let mut s = session("stopped");
    s.power_started("restart");
    match s.startup_logs(Some(77)) {
        WsOutput::SendLogs { since, .. } => assert_eq!(since, 77),
        other => panic!("{:?}", other),
    }
    assert_eq!(s.last_start_since, Some(77));
    s.power_started("kill");
    assert!(s.last_start_since.is_none());
}

#[test]
fn power_results_are_told() {
    assert_eq!(
        show(&[WebSocketHandler::power_completed("stop", true, "stopped")])[0],
        r#"{"event":"daemon_message","args":["[Lightd] Power action stop: completed - stopped"]}"#
    );
    assert!(show(&[WebSocketHandler::power_completed("stop", false, "no")])[0].contains("failed - no"));
    assert_eq!(power_action("start"), Ok(PowerAction::Start));
    assert_eq!(power_action("stop"), Ok(PowerAction::Stop));
    assert_eq!(power_action("restart"), Ok(PowerAction::Restart));
    assert_eq!(power_action("kill"), Ok(PowerAction::Kill));
    assert_eq!(power_action("boot").unwrap_err(), "Invalid power action");
    assert_eq!(power_failure("no"), "Power action failed: no");
}

#[test]
fn mode_is_switched() {
    let mut s = session("running");
    let outputs = s.client_message(&WsClientMessage::SetMode(strings(&["EXEC"])));
    assert_eq!(
        show(&outputs),
        [
            "StopLogs",
            "StartLogs(Exec)",
            r#"offer {"event":"daemon_message","args":["[Lightd] WebSocket mode changed to: exec"]}"#
        ]
    );
    assert!(!s.has_input);
    assert!(s.client_message(&WsClientMessage::SetMode(strings(&["exec"]))).is_empty());
    let outputs = s.client_message(&WsClientMessage::SetMode(strings(&["x"])));
    assert_eq!(
        show(&outputs),
        [r#"offer {"event":"error","args":["Invalid mode. Use 'attached' or 'exec'"]}"#]
    );
    assert!(s.client_message(&WsClientMessage::SetMode(Vec::new())).is_empty());
}

#[test]
fn client_messages_are_followed() {
    let mut s = session("running");
    let outputs = s.client_message(&WsClientMessage::SendCommand(strings(&["help", "x"])));
    match &outputs[0] {
        WsOutput::Input { command, otherwise } => {
            assert_eq!(command, "help");
            assert_eq!(
                otherwise.to_json(),
                r#"{"event":"error","args":["Failed to send command to attached session"]}"#
            );
        }
        other => panic!("{:?}", other),
    }
    let outputs = session("stopped").client_message(&WsClientMessage::SendCommand(strings(&["help"])));
    assert_eq!(show(&outputs), [r#"offer {"event":"error","args":["No attached session available"]}"#]);
    s.set_mode("exec");
    let outputs = s.client_message(&WsClientMessage::SendCommand(strings(&["help"])));
    assert_eq!(show(&outputs), [r#"Exec("help")"#]);
    let outputs = s.client_message(&WsClientMessage::Power(strings(&["START"])));
    assert_eq!(show(&outputs), [r#"Power("start")"#]);
    assert!(s.client_message(&WsClientMessage::Power(Vec::new())).is_empty());
    assert!(s.client_message(&WsClientMessage::SendCommand(Vec::new())).is_empty());
    assert!(s.client_message(&WsClientMessage::Ping).is_empty());
    let outputs = s.client_message(&WsClientMessage::RequestLogs(Vec::new()));
    assert_eq!(show(&outputs), [r#"AskLogs { tail: "10" }"#]);
    s.power_started_at("start", 55);
    let outputs = s.client_message(&WsClientMessage::RequestLogs(strings(&["7"])));
    assert_eq!(show(&outputs), [r#"SendLogs { tail: "7", since: 55 }"#]);
}

#[test]
fn changes_are_told_once() {
    let mut s = session("running");
    let mut busy = state("running");
    busy.lock_reason = Some("Locked".to_string());
    busy.operation = Some("install".to_string());
    let outputs = s.poll(&busy, "installing");
    assert_eq!(
        show(&outputs),
        [
            r#"{"event":"status","args":["installing"]}"#,
            r#"{"event":"daemon_message","args":["[Lightd] install - Locked"]}"#
        ]
    );
    assert!(s.poll(&busy, "installing").is_empty());
    busy.operation_message = Some("Half done".to_string());
    busy.operation = None;
    assert_eq!(
        show(&s.poll(&busy, "installing")),
        [r#"{"event":"daemon_message","args":["[Lightd] Half done"]}"#]
    );
    busy.operation_message = None;
    busy.lock_reason = None;
    assert!(s.poll(&busy, "installing").is_empty());
}

#[test]
fn console_is_passed_on_and_the_connection_closes() {
    assert!(show(&[WebSocketHandler::console_output("x")])[0].contains("[container@pkg.lat]: x"));
    assert!(show(&[WebSocketHandler::console_duplicate(4)])[0].contains("x4"));
    assert!(show(&[WebSocketHandler::daemon_message("x")])[0].contains("[Lightd] x"));
    assert_eq!(
        show(&session("running").close()),
        ["StopLogs", "StopStats", "StopEvents", "Unsubscribe"]
    );
    assert_eq!(
        show(&session("stopped").close()),
        ["StopLogs", "StopStats", "StopEvents", "Unsubscribe"]
    );
}
