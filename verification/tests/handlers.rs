//! Requests for containers and their answers.

use lightd::docker::network::PortAllocation;
use lightd::handlers::container::{
    attach_container, check_container_locked, check_container_suspended, choose_runtime,
    config_update_over, engine_to_ask, force_unlock_container, get_container_by_uuid,
    get_container_logs, get_container_pending_action, get_container_status,
    get_power_action_status, installation_over, kill_container, power_reply, recreate_container,
    recreation_notice, recreation_over, refuse_access, refuse_change, remove_container,
    resolve_container_full, resolve_container_id, restart_container, restarts_for_limits,
    show_state, start_container, stop_container, suspend_container, suspend_reply,
    unsuspend_container, update_container_limits, uuid_or_id, Access, PowerActionRecord,
    PowerRequest,
};
use lightd::handlers::container_create::{create_container, create_container_at, uuid_for};
use lightd::handlers::container_reinstall::{
    create_reinstall_container, fail_renewal, fail_run, reinstall_container, reinstall_reply,
    run_install_and_startup,
};
use lightd::handlers::container_update::{
    install_container, update_container, update_container_config, update_container_env,
    update_reply, ConfigChange,
};
use lightd::models::{
    ContainerTracker, CreateContainerRequest, LogsRequest, ReinstallRequest, ResourceLimits,
    RuntimeConfig, Timestamp, UpdateConfigRequest, UpdateLimitsRequest,
};
use lightd::services::exit_wait::{EngineState, WaitEnd};
use lightd::services::task::{Action, Step, Task};
use lightd::state_manager::ContainerState;
use lightd::table::Table;

fn strings(words: &[&str]) -> Vec<String> {
    words.iter().map(|w| w.to_string()).collect()
}

fn state(name: &str) -> ContainerState {
    ContainerState {
        state: name.to_string(),
        container_id: Some("c".to_string()),
        image: "alpine".to_string(),
        name: "server".to_string(),
        description: None,
        startup_command: Some("./run".to_string()),
        disk_limit: None,
        memory_limit: None,
        cpu_limit: None,
        swap_limit: None,
        pids_limit: None,
        threads_limit: None,
        attached_volumes: Vec::new(),
        ports: Table::new(),
        env: None,
        created_at: Timestamp { secs: 0, nanos: 0 },
        updated_at: Timestamp { secs: 0, nanos: 0 },
        locked: None,
        lock_reason: None,
        locked_at: None,
        restart_policy: None,
        operation: None,
        operation_id: None,
        operation_message: None,
    }
}

fn locked(reason: Option<&str>) -> ContainerState {
    let mut s = state("running");
    s.locked = Some(true);
    s.lock_reason = reason.map(|r| r.to_string());
    s
}

fn engine(running: bool) -> EngineState {
    EngineState {
        running: Some(running),
        paused: None,
        restarting: None,
        oom_killed: None,
        dead: None,
        exit_code: None,
    }
}

fn port(container_port: &str, host_port: &str) -> PortAllocation {
    PortAllocation {
        container_port: container_port.to_string(),
        host_port: host_port.to_string(),
        host_ip: "0.0.0.0".to_string(),
        protocol: "tcp".to_string(),
    }
}

fn tracker() -> ContainerTracker {
    ContainerTracker {
        custom_uuid: "u".to_string(),
        container_id: "old".to_string(),
        name: "server".to_string(),
        image: "alpine".to_string(),
        description: None,
        startup_command: None,
        created_at: Timestamp { secs: 0, nanos: 0 },
        limits: ResourceLimits::default(),
        allocated_ports: vec![port("80", "9001")],
        attached_volumes: Vec::new(),
        ports: Table::new(),
        env: None,
        status: "running".to_string(),
        runtime: Some(runtime("ready", "quit")),
    }
}

fn runtime(start_up: &str, stop: &str) -> RuntimeConfig {
    RuntimeConfig { start_up: start_up.to_string(), stop: stop.to_string() }
}

fn order(install: Option<&str>) -> CreateContainerRequest {
    CreateContainerRequest {
        image: "alpine".to_string(),
        name: None,
        description: None,
        startup_command: Some(strings(&["sh", "-c", "./run"])),
        env: None,
        ports: None,
        volumes: None,
        command: None,
        working_dir: None,
        restart_policy: None,
        custom_uuid: None,
        limits: None,
        install_content: install.map(|s| s.to_string()),
        runtime: Some(runtime("ready", "quit")),
        request_id: None,
    }
}

/// The names of the actions, in order; `!` before one that must succeed.
fn show(tasks: &[Task]) -> Vec<String> {
    tasks
        .iter()
        .map(|t| {
            let name = match &t.action {
                Action::AddState(s) => format!("AddState({})", s.state),
                Action::SaveTracker(t) => format!("SaveTracker({})", t.container_id),
                other => format!("{:?}", other),
            };
            if t.failure.is_some() {
                format!("!{}", name)
            } else {
                name
            }
        })
        .collect()
}

#[test]
fn containers_are_found_by_both_names() {
    let found = resolve_container_full("c", Some(("u".to_string(), state("running"))), None).unwrap();
    assert_eq!((found.0.as_str(), found.2.as_str()), ("u", "c"));
    let found = resolve_container_full("u", None, Some(state("running"))).unwrap();
    assert_eq!((found.0.as_str(), found.2.as_str()), ("u", "c"));
    let mut bare = state("creating");
    bare.container_id = None;
    assert!(resolve_container_full("u", None, Some(bare)).is_none());
    assert!(resolve_container_full("u", None, None).is_none());
}

#[test]
fn identifiers_are_resolved() {
    assert_eq!(resolve_container_id("c", true, &None).unwrap(), "c");
    assert_eq!(resolve_container_id("u", false, &Some(state("running"))).unwrap(), "c");
    let mut bare = state("creating");
    bare.container_id = None;
    assert_eq!(
        resolve_container_id("u", false, &Some(bare)).unwrap_err(),
        "Container ID not found for this UUID"
    );
    assert_eq!(
        resolve_container_id("u", false, &None).unwrap_err(),
        "Container not found with this identifier"
    );
    assert_eq!(uuid_or_id("c", Some("u".to_string())), "u");
    assert_eq!(uuid_or_id("c", None), "c");
    assert_eq!(check_container_suspended(Some(true)), Ok(true));
    assert_eq!(check_container_suspended(None).unwrap_err(), "Container not found in daemon state");
}

#[test]
fn locks_are_told() {
    assert!(check_container_locked(&None).is_none());
    assert!(check_container_locked(&Some(state("running"))).is_none());
    let told = |s| check_container_locked(&Some(s)).unwrap();
    assert_eq!(told(locked(Some("Installing"))), "Container is currently locked: Installing");
    assert_eq!(told(locked(None)), "Container is currently locked: Container is locked");
    assert_eq!(told(state("installing")), "Container is currently installing");
    assert_eq!(told(state("updating")), "Container is currently updating");
}

#[test]
fn locked_container_is_left_alone() {
    let lock = Some(locked(Some("busy")));
    let told = "Container is currently locked: busy";
    assert_eq!(start_container("c", &lock, false, None, &None, None).unwrap_err(), told);
    assert_eq!(stop_container("c", &lock, None, &None, None).unwrap_err(), told);
    assert_eq!(kill_container("c", &lock, None).unwrap_err(), told);
    assert_eq!(restart_container("c", &lock, false, None, &None).unwrap_err(), told);
    assert_eq!(recreate_container("c", &lock, None).unwrap_err(), told);
}

#[test]
fn suspended_container_is_not_started() {
    let s = Some(state("suspended"));
    assert_eq!(
        start_container("c", &s, true, None, &None, None).unwrap_err(),
        "Cannot start suspended container. Unsuspend it first."
    );
    assert_eq!(
        restart_container("c", &s, true, None, &None).unwrap_err(),
        "Cannot restart suspended container. Unsuspend it first."
    );
    assert!(stop_container("c", &s, None, &None, None).is_ok());
    assert!(kill_container("c", &s, None).is_ok());
}

#[test]
fn runtime_of_the_request_overrides_the_record() {
    let chosen = choose_runtime(&Some(tracker()), None).unwrap();
    assert_eq!(chosen.stop, "quit");
    let chosen = choose_runtime(&Some(tracker()), Some(runtime("a", "b"))).unwrap();
    assert_eq!(chosen.stop, "b");
    assert!(choose_runtime(&None, None).is_none());
    let plan =
        start_container("c", &None, false, Some("u".to_string()), &Some(tracker()), None).unwrap();
    assert_eq!(plan.uuid, "u");
    assert_eq!(plan.runtime.unwrap().start_up, "ready");
    let plan = restart_container("c", &None, false, None, &None).unwrap();
    assert_eq!(plan.uuid, "c");
    assert!(plan.runtime.is_none());
}

#[test]
fn power_actions_are_answered() {
    let told = |request| power_reply(request, "c", Ok(())).data.unwrap();
    assert_eq!(told(PowerRequest::Start).message, "Start action initiated for container c");
    assert_eq!(told(PowerRequest::Stop).message, "Stop action initiated for container c");
    assert_eq!(told(PowerRequest::Kill).message, "Kill action initiated for container c");
    assert_eq!(told(PowerRequest::Restart).message, "Restart action initiated for container c");
    assert_eq!(told(PowerRequest::Recreate).message, "Recreate action initiated for container c");
    assert_eq!(told(PowerRequest::Start).status, "accepted");
    let failed = power_reply(PowerRequest::Start, "c", Err("no".to_string()));
    assert!(!failed.success && failed.data.is_none());
    assert_eq!(failed.message.as_deref(), Some("no"));
}

#[test]
fn ends_of_operations_are_told_to_the_panel() {
    let ok: Result<String, String> = Ok("new".to_string());
    let bad: Result<String, String> = Err("no".to_string());
    let shown = |t: Task| show(&[t])[0].clone();
    assert_eq!(
        shown(recreation_notice()),
        "Notify { status: \"recreating\", message: Some(\"Container recreation in progress\") }"
    );
    assert_eq!(
        shown(recreation_over(&ok)),
        "Notify { status: \"install_success\", message: Some(\"Container recreated successfully\") }"
    );
    assert_eq!(
        shown(recreation_over(&bad)),
        "Notify { status: \"install_failed\", message: Some(\"Recreation failed: no\") }"
    );
    assert_eq!(
        shown(config_update_over(&ok)),
        "Notify { status: \"install_success\", message: Some(\"Configuration updated successfully\") }"
    );
    assert_eq!(
        shown(config_update_over(&bad)),
        "Notify { status: \"install_failed\", message: Some(\"Config update failed: no\") }"
    );
    assert_eq!(
        shown(installation_over(&ok)),
        "Notify { status: \"install_success\", message: None }"
    );
    assert_eq!(
        shown(installation_over(&bad)),
        "Notify { status: \"install_failed\", message: Some(\"no\") }"
    );
}

#[test]
fn suspension_is_answered() {
    let (reason, uuid) =
        suspend_container("c", None, Some(("u".to_string(), false))).unwrap();
    assert_eq!((uuid.as_str(), reason.as_str()), ("u", "Container suspended by administrator"));
    let (reason, uuid) = suspend_container("c", Some("late".to_string()), None).unwrap();
    assert_eq!((uuid.as_str(), reason.as_str()), ("c", "late"));
    assert_eq!(
        suspend_container("c", None, Some(("u".to_string(), true))).unwrap_err(),
        "Container is already suspended"
    );
    let (tasks, told) = suspend_reply("c", "late".to_string(), Ok("a1".to_string()));
    assert_eq!(show(&tasks), ["Suspend(\"late\")", "DisableBilling"]);
    let told = told.data.unwrap();
    assert_eq!((told.status.as_str(), told.action_id.as_str()), ("accepted", "a1"));
    assert_eq!(told.message, "Suspend action sent for container c");
    let (tasks, told) = suspend_reply("c", "late".to_string(), Err("full".to_string()));
    assert!(tasks.is_empty());
    assert_eq!(told.message.as_deref(), Some("full"));
    let (tasks, told) = unsuspend_container("c", None, Some(true)).unwrap();
    assert_eq!(show(&tasks), ["Unsuspend", "TrackStatus(\"stopped\")", "EnableBilling"]);
    assert_eq!(
        told,
        "Container c unsuspended: Container unsuspended by administrator. Container is now stopped and can be started."
    );
    assert_eq!(unsuspend_container("c", None, Some(false)).unwrap_err(), "Container is not suspended");
    assert_eq!(
        unsuspend_container("c", None, None).unwrap_err(),
        "Container not found in daemon state"
    );
}

#[test]
fn access_to_a_suspended_container_is_refused() {
    let told = |access| refuse_access(access, Some(true)).unwrap();
    assert_eq!(told(Access::Attach), "Cannot attach to suspended container");
    assert_eq!(told(Access::Execute), "Cannot execute commands in suspended container");
    assert_eq!(told(Access::Update), "Cannot update suspended container");
    assert_eq!(told(Access::Install), "Cannot install on suspended container");
    assert_eq!(told(Access::Limits), "Cannot update limits of suspended container");
    assert!(refuse_access(Access::Attach, None).is_none());
    assert!(refuse_access(Access::Attach, Some(false)).is_none());
    assert_eq!(
        refuse_change(Access::Update, Some(false), &Some(locked(None))).unwrap(),
        "Container is currently locked (installing/updating)"
    );
    assert_eq!(
        refuse_change(Access::Update, None, &None).unwrap(),
        "Container not found in daemon state"
    );
    assert!(refuse_change(Access::Update, Some(false), &Some(state("running"))).is_none());
}

#[test]
fn small_answers() {
    let attached = attach_container("c", "e".to_string());
    assert_eq!(attached.status, "shell_session_created");
    let some = |u: &str| Some(u.to_string());
    let (tasks, told) = remove_container("c", Ok(()), some("u"), some("v"));
    assert_eq!(
        show(&tasks),
        ["ReleaseContainerPorts(\"c\")", "RemoveState(\"u\")", "RemoveTracker(\"v\")"]
    );
    assert_eq!(told.data.as_deref(), Some("Container c removed"));
    assert_eq!(remove_container("c", Ok(()), None, None).0.len(), 1);
    let (tasks, told) = remove_container("c", Err("no".to_string()), some("u"), None);
    assert!(tasks.is_empty());
    assert_eq!(told.message.as_deref(), Some("no"));
    let unknown = get_power_action_status("a1", None);
    assert_eq!(unknown.message.as_deref(), Some("Action a1 not found"));
    let record = PowerActionRecord {
        action_id: "a1".to_string(),
        container_id: "c".to_string(),
        container_uuid: "u".to_string(),
        action: "suspend".to_string(),
        status: "completed".to_string(),
        message: None,
        started_at: Timestamp { secs: 60, nanos: 5_000_000 },
        completed_at: Some(Timestamp { secs: 1704164645, nanos: 0 }),
    };
    let told = get_power_action_status("a1", Some(record)).data.unwrap();
    assert_eq!(told.started_at, "1970-01-01T00:01:00.005+00:00");
    assert_eq!(told.completed_at.as_deref(), Some("2024-01-02T03:04:05+00:00"));
    assert_eq!((told.action.as_str(), told.status.as_str()), ("suspend", "completed"));
    let logs = |follow| LogsRequest { follow, tail: Some("5".to_string()) };
    assert_eq!(get_container_logs(logs(None)), (false, Some("5".to_string())));
    assert!(get_container_logs(logs(Some(true))).0);
    let asked = |restart_container| UpdateLimitsRequest {
        limits: ResourceLimits::default(),
        restart_container,
    };
    assert!(restarts_for_limits(&asked(Some(true))));
    assert!(!restarts_for_limits(&asked(None)) && !restarts_for_limits(&asked(Some(false))));
    let pending = get_container_pending_action(Some(("a1".to_string(), Some("Running".to_string()))));
    assert!(pending.has_pending_action);
    assert_eq!(pending.status.as_deref(), Some("Running"));
    assert!(!get_container_pending_action(None).has_pending_action);
    assert_eq!(
        force_unlock_container("u", false, Ok(())).message.as_deref(),
        Some("Container not found")
    );
    assert_eq!(
        force_unlock_container("u", true, Err("io".to_string())).message.as_deref(),
        Some("Failed to unlock: io")
    );
    let unlocked = force_unlock_container("u", true, Ok(())).data.unwrap();
    assert_eq!((unlocked.status.as_str(), unlocked.message.as_str()), ("ok", "Container u unlocked"));
}

#[test]
fn limits_are_remembered_twice() {
    let limits = ResourceLimits { pids: Some(5), ..ResourceLimits::default() };
    let tasks = update_container_limits(&limits, Some(tracker()));
    assert_eq!(tasks.len(), 2);
    match &tasks[1].action {
        Action::SaveTracker(record) => assert_eq!(record.limits.pids, Some(5)),
        _ => panic!("the record is saved"),
    }
    assert_eq!(update_container_limits(&limits, None).len(), 1);
}

#[test]
fn installation_status_is_shown() {
    let shown = get_container_status(&Some(locked(Some("busy"))), &None).data.unwrap();
    assert_eq!((shown.status.as_str(), shown.progress.as_deref()), ("running", Some("busy")));
    assert_eq!(shown.container_id.as_deref(), Some("c"));
    assert!(shown.logs.is_none());
    assert_eq!(get_container_status(&None, &Some(state("x"))).data.unwrap().status, "x");
    assert_eq!(
        get_container_status(&None, &None).message.as_deref(),
        Some("Container not found in daemon state")
    );
}

#[test]
fn state_of_a_container_is_shown() {
    let up = Some(engine(true));
    let down = Some(engine(false));
    for special in ["install_failed", "installing", "suspended", "creating", "failed"] {
        assert_eq!(show_state(special, &Some("start".to_string()), &up), special);
    }
    let pending = |action: &str, e: &Option<EngineState>| show_state("running", &Some(action.to_string()), e);
    assert_eq!(pending("start", &up), "starting");
    assert_eq!(pending("stop", &up), "stopping");
    assert_eq!(pending("kill", &None), "stopping");
    assert_eq!(pending("restart", &up), "stopping");
    assert_eq!(pending("restart", &down), "starting");
    assert_eq!(pending("restart", &None), "starting");
    assert_eq!(pending("other", &up), "unknown");
    assert_eq!(show_state("running", &None, &None), "unknown");
    assert_eq!(show_state("stopped", &None, &up), "running");
    assert_eq!(show_state("running", &None, &down), "stopped");
    let with = |change: fn(&mut EngineState)| {
        let mut e = engine(false);
        change(&mut e);
        show_state("running", &None, &Some(e))
    };
    assert_eq!(with(|e| e.oom_killed = Some(true)), "oom_killed");
    assert_eq!(with(|e| e.exit_code = Some(137)), "oom_killed");
    assert_eq!(with(|e| e.paused = Some(true)), "paused");
    assert_eq!(with(|e| e.restarting = Some(true)), "restarting");
    assert_eq!(with(|e| e.dead = Some(true)), "dead");
}

#[test]
fn container_is_looked_up() {
    let found =
        get_container_by_uuid("u", &Some(state("running")), &None, &Some(engine(true))).data.unwrap();
    assert_eq!((found.uuid.as_str(), found.container_id.as_str()), ("u", "c"));
    assert_eq!(found.state, "running");
    assert_eq!(engine_to_ask(&Some(state("running"))).as_deref(), Some("c"));
    assert!(engine_to_ask(&Some(state("installing"))).is_none());
    assert!(engine_to_ask(&None).is_none());
    let mut bare = state("creating");
    bare.container_id = None;
    assert_eq!(
        get_container_by_uuid("u", &Some(bare), &None, &None).message.as_deref(),
        Some("Container ID not found for this UUID")
    );
    assert_eq!(
        get_container_by_uuid("u", &None, &None, &None).message.as_deref(),
        Some("Container not found with this UUID")
    );
}

#[test]
fn creation_writes_the_script_first() {
    let t = |secs| Timestamp { secs, nanos: 0 };
    let (tasks, ask) = create_container_at("u", "/srv", order(Some("apk add x")), t(1), t(2));
    let shown = show(&tasks);
    assert_eq!(shown[0], "AddState(creating)");
    assert_eq!(shown[1], "!MakeDirectory(\"/srv/u_data\")");
    assert_eq!(
        shown[2],
        "!WriteFile { path: \"/srv/u_data/entrypoint.sh\", content: \"apk add x\" }"
    );
    assert_eq!(shown[3], "MakeExecutable(\"/srv/u_data/entrypoint.sh\")");
    match &tasks[0].action {
        Action::AddState(s) => {
            assert_eq!(s.name, "unnamed");
            assert_eq!(s.startup_command.as_deref(), Some("sh -c ./run"));
            assert_eq!((s.created_at.secs, s.updated_at.secs), (1, 2));
        }
        _ => panic!("the container is remembered"),
    }
    assert_eq!(ask.request.startup_command, Some(strings(&["/bin/sh", "/data/entrypoint.sh"])));
    let made = ask.created_at(Ok(("new".to_string(), vec![port("80", "9001")])), t(3));
    assert_eq!(
        show(&made.tasks),
        [
            "SetContainerId(\"new\")",
            "SetState(\"created\")",
            "NotifyState(\"created\")",
            "SaveTracker(new)",
            "SetRuntime { container_id: \"new\", start_up: \"ready\", stop: \"quit\" }"
        ]
    );
    let answer = made.answer.unwrap();
    assert_eq!(answer.state, "installing");
    assert_eq!(answer.allocated_ports[0].host_port, "9001");
    let wait = match made.background.unwrap().started(&Ok(())) {
        Step::Go(tasks, wait) => {
            assert_eq!(
                show(&tasks),
                [
                    "SetState(\"installing\")",
                    "Notify { status: \"installing\", message: None }",
                    "Lock(\"Running install script\")"
                ]
            );
            wait
        }
        Step::Over(_) => panic!("the script runs"),
    };
    match wait.waited(WaitEnd::Exited(0)) {
        Step::Go(tasks, restart) => {
            assert_eq!(
                show(&tasks),
                ["WriteFile { path: \"/srv/u_data/entrypoint.sh\", content: \"./run\" }"]
            );
            assert_eq!(
                show(&restart.started(&Ok(()))),
                [
                    "SetState(\"running\")",
                    "Notify { status: \"install_success\", message: None }",
                    "Unlock"
                ]
            );
        }
        Step::Over(_) => panic!("the server is started"),
    }
}

#[test]
fn creation_without_a_script() {
    let (tasks, ask) = create_container("u", "/srv", order(None));
    assert!(show(&tasks)[2].contains("./run"));
    match &tasks[0].action {
        Action::AddState(s) => assert!(s.created_at.secs > 1_600_000_000),
        _ => panic!("the container is remembered"),
    }
    let made = ask.created(Ok(("new".to_string(), Vec::new())));
    assert_eq!(made.answer.unwrap().state, "starting");
    match made.background.unwrap().started(&Ok(())) {
        Step::Over(tasks) => assert_eq!(show(&tasks), ["SetState(\"running\")"]),
        Step::Go(..) => panic!("nothing to wait for"),
    }
}

#[test]
fn failures_of_a_creation() {
    let ask = || create_container("u", "/srv", order(Some("x"))).1;
    let refused = ask().created(Err("no image".to_string()));
    assert_eq!(show(&refused.tasks), ["SetState(\"failed\")"]);
    assert_eq!(refused.answer.unwrap_err(), "no image");
    assert!(refused.background.is_none());
    let start = || ask().created(Ok(("new".to_string(), Vec::new()))).background.unwrap();
    match start().started(&Err("no".to_string())) {
        Step::Over(tasks) => {
            assert_eq!(show(&tasks), ["SetState(\"failed\")", "NotifyState(\"failed\")"])
        }
        Step::Go(..) => panic!("nothing was started"),
    }
    let over = |end| match start().started(&Ok(())) {
        Step::Go(_, wait) => match wait.waited(end) {
            Step::Over(tasks) => show(&tasks),
            Step::Go(..) => panic!("the script failed"),
        },
        Step::Over(_) => panic!("the script runs"),
    };
    assert_eq!(over(WaitEnd::TimedOut), ["SetState(\"install_timeout\")", "Unlock"]);
    assert_eq!(over(WaitEnd::Lost), ["SetState(\"failed\")", "Unlock"]);
    assert_eq!(
        over(WaitEnd::Exited(2)),
        [
            "SetState(\"install_failed\")",
            "Notify { status: \"install_failed\", message: None }",
            "Unlock"
        ]
    );
}

#[test]
fn new_containers_get_a_name() {
    let mut asked = order(None);
    assert_eq!(uuid_for(&asked, "fresh".to_string()), "fresh");
    asked.custom_uuid = Some("mine".to_string());
    assert_eq!(uuid_for(&asked, "fresh".to_string()), "mine");
}

#[test]
fn update_runs_a_script() {
    let begun = update_container("u", "/srv", &state("running"), "c", "apk upgrade".to_string());
    assert_eq!(
        show(&begun.before),
        ["Lock(\"Running update script\")", "SetState(\"updating\")"]
    );
    assert_eq!(show(&begun.after), ["Stop(\"c\")", "Pause(2000)"]);
    let write = begun.write;
    assert_eq!(write.entrypoint, "/srv/u_data/entrypoint.sh");
    assert_eq!(write.script, "apk upgrade");
    let start = match write.written(&Ok(())) {
        Step::Go(_, start) => start,
        Step::Over(_) => panic!("the script was written"),
    };
    let wait = match start.started(&Ok(())) {
        Step::Go(_, wait) => wait,
        Step::Over(_) => panic!("the script runs"),
    };
    match wait.waited(WaitEnd::Exited(0)) {
        Step::Go(tasks, restart) => {
            assert!(show(&tasks)[0].contains("./run"));
            assert_eq!(
                show(&restart.started(&Err("no".to_string()))),
                ["SetState(\"failed\")", "Unlock"]
            );
        }
        Step::Over(_) => panic!("the server is started"),
    }
    assert_eq!(update_reply("c"), "Update started for container c");
}

#[test]
fn failures_of_an_update_unlock() {
    let begin = || update_container("u", "/srv", &state("running"), "c", "x".to_string()).write;
    let failed = ["SetState(\"update_failed\")", "Unlock"];
    match begin().written(&Err("io".to_string())) {
        Step::Over(tasks) => assert_eq!(show(&tasks), failed),
        Step::Go(..) => panic!("nothing was written"),
    }
    let start = || match begin().written(&Ok(())) {
        Step::Go(_, start) => start,
        Step::Over(_) => panic!("the script was written"),
    };
    match start().started(&Err("no".to_string())) {
        Step::Over(tasks) => assert_eq!(show(&tasks), failed),
        Step::Go(..) => panic!("nothing was started"),
    }
    let over = |end| match start().started(&Ok(())) {
        Step::Go(_, wait) => match wait.waited(end) {
            Step::Over(tasks) => show(&tasks),
            Step::Go(..) => panic!("the script failed"),
        },
        Step::Over(_) => panic!("the script runs"),
    };
    assert_eq!(over(WaitEnd::Exited(1)), failed);
    assert_eq!(over(WaitEnd::TimedOut), ["SetState(\"update_timeout\")", "Unlock"]);
    assert_eq!(over(WaitEnd::Lost), ["SetState(\"failed\")", "Unlock"]);
}

#[test]
fn installation_is_accepted() {
    let (notice, told) = install_container("c", "u");
    assert_eq!(show(&[notice]), ["Notify { status: \"installing\", message: None }"]);
    assert_eq!(told.message, "Installation started for container c");
    assert_eq!((told.uuid.as_str(), told.status.as_str()), ("u", "installing"));
}

fn config(startup: Option<&[&str]>, image: Option<&str>) -> UpdateConfigRequest {
    UpdateConfigRequest {
        env: None,
        limits: None,
        ports: None,
        image: image.map(|i| i.to_string()),
        startup_command: startup.map(strings),
        request_id: None,
    }
}

#[test]
fn startup_change_needs_no_new_container() {
    let asked = config(Some(&["sh", "-c", "./go"]), None);
    match update_container_config("u", "/srv", asked, false, false, true) {
        ConfigChange::Startup(tasks, told) => {
            assert_eq!(
                show(&tasks),
                [
                    "!MakeDirectory(\"/srv/u_data\")",
                    "!WriteFile { path: \"/srv/u_data/entrypoint.sh\", content: \"./go\\n\" }",
                    "MakeExecutable(\"/srv/u_data/entrypoint.sh\")",
                    "SetStartupCommand(\"./go\")",
                    "TrackStartupCommand([\"sh\", \"-c\", \"./go\"])"
                ]
            );
            assert_eq!(
                tasks[0].after(&Err("io".to_string())).unwrap_err(),
                "Failed to create data directory: io"
            );
            assert_eq!(
                tasks[1].after(&Err("io".to_string())).unwrap_err(),
                "Failed to write entrypoint: io"
            );
            assert_eq!((told.status.as_str(), told.startup_command.as_str()), ("ok", "./go"));
        }
        _ => panic!("only the script changes"),
    }
}

#[test]
fn other_changes_need_a_new_container() {
    let asked = config(Some(&["./go"]), Some("debian"));
    match update_container_config("u", "/srv", asked, false, false, false) {
        ConfigChange::Recreate(notice, update, told) => {
            assert_eq!(
                show(&[notice]),
                ["Notify { status: \"recreating\", message: Some(\"Applying configuration changes\") }"]
            );
            assert_eq!(update.image.as_deref(), Some("debian"));
            assert_eq!(told.message, "Config update initiated for container u");
        }
        _ => panic!("the image changes"),
    }
}

#[test]
fn refused_changes() {
    let refusal = |locked, suspended, known| {
        match update_container_config("u", "/srv", config(Some(&["x"]), None), locked, suspended, known)
        {
            ConfigChange::Refused(told) => told,
            _ => panic!("the change is refused"),
        }
    };
    assert_eq!(
        refusal(true, true, true),
        "Container is currently locked (operation in progress)"
    );
    assert_eq!(refusal(false, true, true), "Cannot update suspended container");
    assert_eq!(refusal(false, false, false), "Container not found in daemon state");
    assert_eq!(update_container_env("u", true).unwrap_err(), "Container is currently locked");
    assert_eq!(
        update_container_env("u", false).unwrap().message,
        "Env update initiated for container u"
    );
}

fn renewal() -> ReinstallRequest {
    ReinstallRequest {
        image: "debian".to_string(),
        install_script: "apt install x".to_string(),
        startup_command: strings(&["/bin/sh", "-c", "./go"]),
        env: None,
        ports: None,
        limits: None,
        runtime: None,
        request_id: None,
    }
}

#[test]
fn renewal_makes_a_new_container() {
    let (tasks, load) =
        reinstall_container("u", "/srv", renewal(), &Some(state("running")), false).unwrap();
    assert_eq!(
        show(&tasks),
        [
            "!Lock(\"Reinstalling\")",
            "SetState(\"installing\")",
            "Notify { status: \"installing\", message: Some(\"Reinstalling container\") }"
        ]
    );
    let (tasks, create) = load.tracker_loaded(Ok(Some(tracker()))).unwrap();
    assert_eq!(
        show(&tasks),
        [
            "Stop(\"old\")",
            "Pause(500)",
            "Remove(\"old\")",
            "ReleasePort(9001)",
            "!Pull(\"debian\")",
            "!MakeDirectory(\"/srv/u_data\")",
            "!WriteFile { path: \"/srv/u_data/entrypoint.sh\", content: \"apt install x\" }",
            "MakeExecutable(\"/srv/u_data/entrypoint.sh\")"
        ]
    );
    let (same, _) =
        create_reinstall_container("u", "/srv", renewal(), Ok(Some(tracker()))).unwrap();
    assert_eq!(show(&same), show(&tasks));
    assert_eq!(create.request.name.as_deref(), Some("server"));
    assert_eq!(create.request.ports.as_ref().unwrap().get("80").unwrap(), "9001");
    let (tasks, id) = create.created(Ok(("new".to_string(), Vec::new()))).unwrap();
    assert_eq!(id, "new");
    assert_eq!(show(&tasks), ["SaveTracker(new)", "SetContainerId(\"new\")"]);
    match &tasks[0].action {
        Action::SaveTracker(record) => {
            assert_eq!((record.custom_uuid.as_str(), record.image.as_str()), ("u", "debian"));
            assert!(record.runtime.is_none());
        }
        _ => panic!("the record is saved"),
    }
    let told = reinstall_reply("u", "new");
    assert_eq!((told.status.as_str(), told.new_container_id.as_str()), ("installing", "new"));
    assert_eq!(told.message, "Reinstall started for container u");
}

#[test]
fn refused_renewals() {
    let ask = |s: Option<ContainerState>, suspended| {
        match reinstall_container("u", "/srv", renewal(), &s, suspended) {
            Err(told) => told,
            Ok(_) => panic!("the renewal is refused"),
        }
    };
    assert_eq!(ask(None, false), "Container not found");
    assert_eq!(ask(Some(locked(None)), true), "Container is currently locked");
    assert_eq!(ask(Some(state("suspended")), true), "Cannot reinstall suspended container");
    let load = || reinstall_container("u", "/srv", renewal(), &Some(state("x")), false).unwrap().1;
    assert_eq!(load().tracker_loaded(Ok(None)).err().unwrap(), "Container tracker not found");
    assert_eq!(load().tracker_loaded(Err("io".to_string())).err().unwrap(), "io");
    let create = load().tracker_loaded(Ok(Some(tracker()))).unwrap().1;
    assert_eq!(
        create.created(Err("no".to_string())).unwrap_err(),
        "Failed to create container: no"
    );
    assert_eq!(show(&fail_renewal()), ["SetState(\"install_failed\")", "Unlock"]);
}

#[test]
fn renewal_runs_the_script_then_the_server() {
    let (tasks, run) =
        run_install_and_startup("u", "new", &strings(&["/bin/sh", "-c", "./go"]), "/srv");
    assert_eq!(show(&tasks), ["!Start(\"new\")"]);
    assert_eq!(
        tasks[0].after(&Err("no".to_string())).unwrap_err(),
        "Failed to start container: no"
    );
    match run.waited(WaitEnd::Exited(0)) {
        Step::Go(tasks, start) => {
            assert_eq!(
                show(&tasks),
                ["!WriteFile { path: \"/srv/u_data/entrypoint.sh\", content: \"./go\" }"]
            );
            assert_eq!(
                show(&start.started(&Ok(()))),
                [
                    "SetState(\"running\")",
                    "Unlock",
                    "Notify { status: \"install_success\", message: None }"
                ]
            );
        }
        Step::Over(_) => panic!("the server is started"),
    }
    let failed = [
        "Unlock",
        "Notify { status: \"install_failed\", message: Some(\"Install script failed or timed out\") }",
        "SetState(\"install_failed\")",
        "Unlock",
    ];
    let (_, run) = run_install_and_startup("u", "new", &Vec::new(), "/srv");
    match run.waited(WaitEnd::Lost) {
        Step::Over(tasks) => assert_eq!(show(&tasks), failed),
        Step::Go(..) => panic!("the script failed"),
    }
    assert_eq!(show(&fail_run("Install script failed or timed out".to_string())), failed);
}
