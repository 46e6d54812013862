//! Creation, recreation, reinstallation and mounts of containers.

use lightd::docker::network::PortAllocation;
use lightd::models::{ContainerTracker, ResourceLimits, RuntimeConfig, Timestamp, VolumeMount};
use lightd::services::container_lifecycle::{
    ContainerLifecycleManager, ContainerUpdateRequest, InstallStep,
};
use lightd::services::exit_wait::WaitEnd;
use lightd::services::mounts::SwapStep;
use lightd::services::recipe::{shell_line_of, startup_line_of};
use lightd::services::task::{Action, Ending, Next, Task};
use lightd::table::Table;

fn strings(words: &[&str]) -> Vec<String> {
    words.iter().map(|w| w.to_string()).collect()
}

fn port(container_port: &str, host_port: &str) -> PortAllocation {
    PortAllocation {
        container_port: container_port.to_string(),
        host_port: host_port.to_string(),
        host_ip: "0.0.0.0".to_string(),
        protocol: "tcp".to_string(),
    }
}

fn table(pairs: &[(&str, &str)]) -> Table<String> {
    Table::from_pairs(pairs.iter().map(|(k, v)| (k.to_string(), v.to_string())).collect())
}

fn tracker() -> ContainerTracker {
    ContainerTracker {
        custom_uuid: "u".to_string(),
        container_id: "old".to_string(),
        name: "server".to_string(),
        image: "alpine".to_string(),
        description: Some("a server".to_string()),
        startup_command: Some(strings(&["sh", "-c", "./run", "--all"])),
        created_at: Timestamp { secs: 5, nanos: 0 },
        limits: ResourceLimits { memory: Some("1g".to_string()), ..ResourceLimits::default() },
        allocated_ports: vec![port("80", "9001"), port("81", "none"), port("443", "9002")],
        attached_volumes: Vec::new(),
        ports: Table::new(),
        env: Some(table(&[("A", "1")])),
        status: "running".to_string(),
        runtime: Some(RuntimeConfig { start_up: "Done".to_string(), stop: "stop".to_string() }),
    }
}

fn manager() -> ContainerLifecycleManager {
    ContainerLifecycleManager::new("/srv".to_string())
}

/// Each task in a few words; `!` before one that must succeed.
fn show(tasks: &[Task]) -> Vec<String> {
    tasks
        .iter()
        .map(|t| {
            let name = match &t.action {
                Action::Lock(r) => format!("lock {}", r),
                Action::Unlock => "unlock".to_string(),
                Action::AddState(s) => format!("add {}", s.state),
                Action::SetState(s) => format!("state {}", s),
                Action::SetContainerId(i) => format!("id {}", i),
                Action::SetStartupCommand(c) => format!("command {}", c),
                Action::SetLimits(_) => "limits".to_string(),
                Action::SaveTracker(t) => format!("save {}", t.container_id),
                Action::TrackPorts(p) => format!("track {} ports", p.len()),
                Action::TrackStartupCommand(c) => format!("track {}", c.join(" ")),
                Action::TrackStatus(s) => format!("track {}", s),
                Action::Suspend(r) => format!("suspend {}", r),
                Action::Unsuspend => "unsuspend".to_string(),
                Action::DisableBilling => "no billing".to_string(),
                Action::EnableBilling => "billing".to_string(),
                Action::ReleaseContainerPorts(i) => format!("release ports of {}", i),
                Action::RemoveState(u) => format!("forget {}", u),
                Action::RemoveTracker(u) => format!("delete {}", u),
                Action::Report { status, message } => format!("report {}: {}", status, message),
                Action::Notify { status, message } => format!("notify {}: {:?}", status, message),
                Action::NotifyState(s) => format!("notify state {}", s),
                Action::Stop(i) => format!("stop {}", i),
                Action::Start(i) => format!("start {}", i),
                Action::Remove(i) => format!("remove {}", i),
                Action::RemoveForced(i) => format!("force remove {}", i),
                Action::Pull(i) => format!("pull {}", i),
                Action::Pause(ms) => format!("pause {}", ms),
                Action::ReleasePort(p) => format!("release {}", p),
                Action::MakeDirectory(p) => format!("mkdir {}", p),
                Action::WriteFile { path, content } => format!("write {} <- {}", path, content),
                Action::MakeExecutable(p) => format!("chmod {}", p),
                Action::SetRuntime { container_id, .. } => format!("runtime {}", container_id),
            };
            if t.failure.is_some() {
                format!("!{}", name)
            } else {
                name
            }
        })
        .collect()
}

fn go<S, T>(next: Next<S, T>) -> (Vec<Task>, S) {
    match next {
        Next::Go(tasks, stage) => (tasks, stage),
        Next::End(_) => panic!("the operation goes on"),
    }
}

fn end<S, T>(next: Next<S, T>) -> Ending<T> {
    match next {
        Next::Go(..) => panic!("the operation ends"),
        Next::End(ending) => ending,
    }
}

fn saved(tasks: &[Task]) -> &ContainerTracker {
    for t in tasks {
        if let Action::SaveTracker(record) = &t.action {
            return record;
        }
    }
    panic!("nothing is saved")
}

const TEARDOWN: [&str; 5] =
    ["stop old", "pause 300", "remove old", "release 9001", "release 9002"];

#[test]
fn recreation_keeps_what_is_not_updated() {
    let (tasks, load) = manager().recreate_container("u", None);
    assert_eq!(
        show(&tasks),
        [
            "!lock Recreating container",
            "!state recreating",
            "report recreating: Container recreation in progress"
        ]
    );
    let broken = Err("io".to_string());
    assert_eq!(tasks[0].after(&broken).unwrap_err(), "Failed to lock container: io");
    assert_eq!(tasks[1].after(&broken).unwrap_err(), "Failed to update state: io");
    assert!(tasks[2].after(&broken).is_ok());
    assert!(tasks[0].after(&Ok(())).is_ok());
    assert!(tasks[0].aftermath().is_empty());
    assert_eq!(show(&tasks[1].aftermath()), ["unlock"]);

    let (tasks, create) = go(load.tracker_loaded(Ok(Some(tracker()))));
    assert_eq!(show(&tasks), TEARDOWN);
    let request = &create.request;
    assert_eq!(request.image, "alpine");
    assert_eq!(request.name.as_deref(), Some("server"));
    assert_eq!(request.startup_command, Some(strings(&["/bin/sh", "/data/entrypoint.sh"])));
    assert_eq!(request.custom_uuid.as_deref(), Some("u"));
    assert_eq!(request.env.as_ref().unwrap().get("A").unwrap(), "1");
    let ports = request.ports.as_ref().unwrap();
    assert_eq!(ports.len(), 3);
    assert_eq!(ports.get("443").unwrap(), "9002");
    assert_eq!(request.limits.as_ref().unwrap().memory.as_deref(), Some("1g"));
    assert_eq!(request.runtime.as_ref().unwrap().stop, "stop");
    assert!(request.install_content.is_none() && request.request_id.is_none());

    let (tasks, start) = go(create.created(Ok(("new".to_string(), vec![port("80", "9005")]))));
    assert_eq!(show(&tasks), ["save new", "id new"]);
    let record = saved(&tasks);
    assert_eq!(record.custom_uuid, "u");
    assert_eq!(record.image, "alpine");
    assert_eq!(record.allocated_ports.len(), 1);
    let ending = start.started(&Ok(()));
    assert_eq!(
        show(&ending.tasks),
        ["state running", "unlock", "report install_success: Container recreated successfully"]
    );
    assert_eq!(ending.result.unwrap(), "new");
}

#[test]
fn recreation_applies_the_update() {
    let update = ContainerUpdateRequest {
        env: Some(table(&[("B", "2")])),
        limits: Some(ResourceLimits { cpu: Some("2".to_string()), ..ResourceLimits::default() }),
        ports: Some(table(&[("8080", "9100")])),
        image: Some("debian".to_string()),
        startup_command: Some(strings(&["sh", "-c", "./go"])),
    };
    let (_, load) = manager().recreate_container("u", Some(update));
    let (tasks, create) = go(load.tracker_loaded(Ok(Some(tracker()))));
    let mut expected: Vec<&str> = vec![
        "!mkdir /srv/u_data",
        "!write /srv/u_data/entrypoint.sh <- ./go\n",
        "chmod /srv/u_data/entrypoint.sh",
        "command ./go",
        "track sh -c ./go",
    ];
    expected.extend(TEARDOWN);
    assert_eq!(show(&tasks), expected);
    assert_eq!(show(&tasks[1].aftermath()), ["unlock"]);
    let ports = create.request.ports.as_ref().unwrap();
    assert_eq!((ports.len(), ports.get("8080").unwrap().as_str()), (1, "9100"));
    assert_eq!(create.request.startup_command, Some(strings(&["/bin/sh", "/data/entrypoint.sh"])));
    assert_eq!(create.request.image, "debian");
    let env = create.request.env.as_ref().unwrap();
    assert!(env.get("A").is_none());
    assert_eq!(env.get("B").unwrap(), "2");
    let limits = create.request.limits.as_ref().unwrap();
    assert_eq!(limits.cpu.as_deref(), Some("2"));
    assert!(limits.memory.is_none());
    let (tasks, _) = go(create.created(Ok(("new".to_string(), Vec::new()))));
    assert_eq!(saved(&tasks).startup_command, Some(strings(&["sh", "-c", "./go"])));
}

#[test]
fn recreation_fails_and_unlocks() {
    let load = |reply| end(manager().recreate_container("u", None).1.tracker_loaded(reply));
    let ending = load(Ok(None));
    assert_eq!(show(&ending.tasks), ["unlock"]);
    assert_eq!(ending.result.unwrap_err(), "Container tracker data not found");
    let ending = load(Err("io".to_string()));
    assert_eq!(show(&ending.tasks), ["unlock"]);
    assert_eq!(ending.result.unwrap_err(), "Failed to load container data: io");
    let (_, create) =
        go(manager().recreate_container("u", None).1.tracker_loaded(Ok(Some(tracker()))));
    let ending = end(create.created(Err("no image".to_string())));
    assert_eq!(
        show(&ending.tasks),
        ["state failed", "unlock", "report install_failed: Container recreation failed: no image"]
    );
    assert_eq!(ending.result.unwrap_err(), "Failed to create container: no image");
}

#[test]
fn recreation_without_a_start_still_succeeds() {
    let (_, create) =
        go(manager().recreate_container("u", None).1.tracker_loaded(Ok(Some(tracker()))));
    let (_, start) = go(create.created(Ok(("new".to_string(), Vec::new()))));
    let ending = start.started(&Err("no".to_string()));
    assert_eq!(
        show(&ending.tasks),
        ["state failed", "unlock", "report install_success: Container recreated successfully"]
    );
    assert_eq!(ending.result.unwrap(), "new");
}

#[test]
fn single_updates_change_one_thing() {
    let m = manager();
    let update = m.update_env("u", table(&[("B", "2")])).1.update.unwrap();
    assert!(update.env.is_some() && update.limits.is_none() && update.image.is_none());
    let update = m.update_limits("u", ResourceLimits::default()).1.update.unwrap();
    assert!(update.env.is_none() && update.limits.is_some() && update.ports.is_none());
    let update = m.change_image("u", "debian".to_string()).1.update.unwrap();
    assert_eq!(update.image.as_deref(), Some("debian"));
    assert!(update.env.is_none() && update.limits.is_none() && update.startup_command.is_none());
}

#[test]
fn ports_are_given_back_before_new_ones_are_taken() {
    let load = manager().update_ports("u", table(&[("80", "")]));
    let (tasks, allocate) = go(load.tracker_loaded(Ok(Some(tracker()))));
    assert_eq!(show(&tasks), ["release 9001", "release 9002"]);
    let (tasks, recreate) = go(allocate.allocated(Ok(table(&[("80", "9100")]))));
    assert_eq!(
        show(&tasks),
        [
            "!track 1 ports",
            "!lock Recreating container",
            "!state recreating",
            "report recreating: Container recreation in progress"
        ]
    );
    assert_eq!(tasks[0].after(&Err("io".to_string())).unwrap_err(), "io");
    if let Action::TrackPorts(ports) = &tasks[0].action {
        assert_eq!(ports[0].host_port, "9100");
        assert_eq!(ports[0].host_ip, "0.0.0.0");
        assert_eq!(ports[0].protocol, "tcp");
    }
    assert_eq!(recreate.update.as_ref().unwrap().ports.as_ref().unwrap().get("80").unwrap(), "9100");
    let mut recorded = tracker();
    recorded.allocated_ports = vec![port("80", "9100")];
    let (_, create) = go(recreate.tracker_loaded(Ok(Some(recorded))));
    let used = create.request.ports.unwrap();
    assert_eq!((used.len(), used.get("80").unwrap().as_str()), (1, "9100"));
    let load = |reply| end(manager().update_ports("u", Table::new()).tracker_loaded(reply));
    assert_eq!(load(Ok(None)).result.unwrap_err(), "Container not found");
    assert_eq!(load(Err("io".to_string())).result.unwrap_err(), "io");
    let (_, allocate) =
        go(manager().update_ports("u", Table::new()).tracker_loaded(Ok(Some(tracker()))));
    let ending = end(allocate.allocated(Err("none left".to_string())));
    assert_eq!(ending.result.unwrap_err(), "Port allocation failed: none left");
}

#[test]
fn shell_wrapping_is_taken_off() {
    assert_eq!(shell_line_of(&strings(&["sh", "-c", "./run", "--all"])), "./run --all");
    assert_eq!(shell_line_of(&strings(&["/bin/sh", "-c", "./run"])), "./run");
    assert_eq!(shell_line_of(&strings(&["sh", "-c"])), "sh -c");
    assert_eq!(shell_line_of(&strings(&["bash", "-c", "./run"])), "bash -c ./run");
    assert_eq!(shell_line_of(&strings(&["sh", "-x", "./run"])), "sh -x ./run");
    assert_eq!(shell_line_of(&Vec::new()), "");
    assert_eq!(startup_line_of(&None), "sleep infinity");
    assert_eq!(startup_line_of(&Some(strings(&["sh", "-c", "x"]))), "x");
}

fn install(script: Option<&str>) -> (Vec<Task>, InstallStep) {
    manager().create_with_install(
        "u",
        "alpine",
        "server",
        Some("words".to_string()),
        Some(strings(&["sh", "-c", "./run"])),
        Some(table(&[("A", "1")])),
        None,
        None,
        script.map(|s| s.to_string()),
    )
}

#[test]
fn container_is_created_without_an_installation() {
    let (tasks, step) = install(None);
    assert_eq!(
        show(&tasks),
        [
            "!lock Installing",
            "!state installing",
            "!mkdir /srv/u",
            "!mkdir /srv/u_data",
            "!write /srv/u_data/entrypoint.sh <- sh -c ./run",
            "chmod /srv/u_data/entrypoint.sh"
        ]
    );
    let create = match step {
        InstallStep::Create(create) => create,
        InstallStep::Paths(_) => panic!("nothing to install"),
    };
    assert!(create.request.volumes.is_none());
    assert_eq!(create.request.description.as_deref(), Some("words"));
    let now = Timestamp { secs: 77, nanos: 1 };
    let ending = create.created_at(Ok(("new".to_string(), vec![port("80", "9001")])), now);
    assert_eq!(
        show(&ending.tasks),
        ["state stopped", "id new", "save new", "unlock", "report install_success: Install complete"]
    );
    let record = saved(&ending.tasks);
    assert_eq!(record.status, "stopped");
    assert_eq!((record.created_at.secs, record.created_at.nanos), (77, 1));
    assert!(record.description.is_none() && record.env.is_none() && record.runtime.is_none());
    assert_eq!(ending.result.unwrap(), "new");
}

#[test]
fn installation_runs_in_a_helper() {
    let (tasks, step) = install(Some("apk add x"));
    assert_eq!(
        show(&tasks)[4..],
        ["!write /srv/u_data/install.sh <- apk add x", "chmod /srv/u_data/install.sh"]
    );
    let paths = match step {
        InstallStep::Paths(paths) => paths,
        InstallStep::Create(_) => panic!("there is a script"),
    };
    assert_eq!((paths.volume_path.as_str(), paths.data_path.as_str()), ("/srv/u", "/srv/u_data"));
    let now = Timestamp { secs: 1700000000, nanos: 5 };
    let (tasks, temp) =
        go(paths.resolved_at(Ok("/abs/u".to_string()), Ok("/abs/u_data".to_string()), now));
    assert_eq!(show(&tasks), ["!pull alpine"]);
    assert_eq!(temp.config.name, "u-install-1700000000");
    assert_eq!(temp.config.cmd, strings(&["/bin/sh", "/data/install.sh"]));
    assert_eq!(temp.config.env, strings(&["MODE=INSTALL"]));
    assert_eq!(temp.config.binds, strings(&["/abs/u:/home/container", "/abs/u_data:/data:ro"]));
    assert!(temp.config.ports.is_none() && temp.config.tty && !temp.config.interactive);
    let (tasks, waiting) = go(temp.created(Ok("tmp".to_string())));
    assert_eq!(show(&tasks), ["!start tmp"]);
    let (tasks, create) = waiting.waited(WaitEnd::Exited(0));
    assert_eq!(
        show(&tasks),
        [
            "force remove tmp",
            "!write /srv/u_data/entrypoint.sh <- sh -c ./run",
            "chmod /srv/u_data/entrypoint.sh"
        ]
    );
    let ending = create.created(Ok(("new".to_string(), Vec::new())));
    assert_eq!(show(&ending.tasks)[0], "state stopped");
    assert!(saved(&ending.tasks).created_at.secs > 1700000000);
}

fn waiting_install() -> lightd::services::container_lifecycle::InstallWaiting {
    let paths = match install(Some("x")).1 {
        InstallStep::Paths(paths) => paths,
        InstallStep::Create(_) => panic!("there is a script"),
    };
    let (_, temp) = go(paths.resolved(Ok("/a".to_string()), Ok("/b".to_string())));
    go(temp.created(Ok("tmp".to_string()))).1
}

#[test]
fn failed_installation_still_leaves_a_container() {
    for outcome in [WaitEnd::Exited(1), WaitEnd::Lost, WaitEnd::TimedOut] {
        let (tasks, create) = waiting_install().waited(outcome);
        assert!(show(&tasks).contains(&"force remove tmp".to_string()));
        let ending = create.created(Ok(("new".to_string(), Vec::new())));
        assert_eq!(
            show(&ending.tasks),
            [
                "state install_failed",
                "id new",
                "save new",
                "unlock",
                "report install_failed: Install failed"
            ]
        );
        assert_eq!(saved(&ending.tasks).status, "install_failed");
        assert_eq!(ending.result.unwrap(), "new");
    }
    let (_, create) = waiting_install().waited(WaitEnd::Exited(0));
    let ending = create.created(Err("no".to_string()));
    assert_eq!(
        show(&ending.tasks),
        ["state failed", "unlock", "report install_failed: Failed to create container: no"]
    );
    assert_eq!(ending.result.unwrap_err(), "Failed to create container: no");
}

#[test]
fn helper_needs_its_directories() {
    let paths = || match install(Some("x")).1 {
        InstallStep::Paths(paths) => paths,
        InstallStep::Create(_) => panic!("there is a script"),
    };
    let e = || Err("gone".to_string());
    let ok = || Ok("/a".to_string());
    assert!(install(Some("x")).0[1..]
        .iter()
        .filter(|t| t.failure.is_some())
        .all(|t| show(&t.aftermath()) == ["unlock"]));
    let first = end(paths().resolved(e(), e()));
    assert_eq!(show(&first.tasks), ["unlock"]);
    assert_eq!(first.result.unwrap_err(), "Failed to get abs path: gone");
    let second = end(paths().resolved(ok(), e()));
    assert_eq!(second.result.unwrap_err(), "Failed to get abs data path: gone");
    let (_, temp) = go(paths().resolved(ok(), ok()));
    let third = end(temp.created(e()));
    assert_eq!(show(&third.tasks), ["unlock"]);
    assert_eq!(third.result.unwrap_err(), "Failed to create temp container: gone");
}

#[test]
fn reinstallation_runs_the_script_then_the_server() {
    let (tasks, load) = manager().reinstall("u", "apk add y", Some("debian".to_string()), None);
    assert_eq!(show(&tasks), ["!lock Reinstalling"]);
    assert!(tasks[0].aftermath().is_empty());
    let (tasks, create) = go(load.tracker_loaded(Ok(Some(tracker()))));
    assert!(tasks.iter().filter(|t| t.failure.is_some()).all(|t| show(&t.aftermath()) == ["unlock"]));
    assert_eq!(
        show(&tasks),
        [
            "!mkdir /srv/u_data",
            "!write /srv/u_data/entrypoint.sh <- apk add y",
            "chmod /srv/u_data/entrypoint.sh",
            "stop old",
            "pause 300",
            "remove old",
            "release 9001",
            "release 9002",
            "!pull debian"
        ]
    );
    assert!(create.request.volumes.is_none());
    let (tasks, wait) = go(create.created(Ok(("new".to_string(), Vec::new()))));
    assert_eq!(show(&tasks), ["save new", "id new", "state installing", "!start new"]);
    assert_eq!(saved(&tasks).image, "debian");
    assert_eq!(saved(&tasks).startup_command, tracker().startup_command);
    let (tasks, start) = go(wait.waited(WaitEnd::Exited(0)));
    assert_eq!(show(&tasks), ["!write /srv/u_data/entrypoint.sh <- ./run --all"]);
    let ending = start.started(&Ok(()));
    assert_eq!(show(&ending.tasks), ["state running", "unlock"]);
    assert_eq!(ending.result.unwrap(), "new");
}

#[test]
fn reinstallation_fails_with_the_script() {
    let (_, load) = manager().reinstall("u", "x", None, Some(strings(&["./go"])));
    let (_, create) = go(load.tracker_loaded(Ok(Some(tracker()))));
    let (tasks, wait) = go(create.created(Ok(("new".to_string(), Vec::new()))));
    assert_eq!(saved(&tasks).startup_command, Some(strings(&["./go"])));
    assert_eq!(saved(&tasks).image, "alpine");
    let ending = end(wait.waited(WaitEnd::TimedOut));
    assert_eq!(show(&ending.tasks), ["state install_failed", "unlock"]);
    assert_eq!(ending.result.unwrap_err(), "Install script failed or timed out");
    let load = |reply| end(manager().reinstall("u", "x", None, None).1.tracker_loaded(reply));
    assert_eq!(show(&load(Ok(None)).tasks), ["unlock"]);
    assert_eq!(load(Ok(None)).result.unwrap_err(), "Container not found");
    assert_eq!(load(Err("io".to_string())).result.unwrap_err(), "io");
    let (_, load) = manager().reinstall("u", "x", None, None);
    let (_, create) = go(load.tracker_loaded(Ok(Some(tracker()))));
    let ending = end(create.created(Err("no".to_string())));
    assert_eq!(show(&ending.tasks), ["unlock"]);
    assert_eq!(ending.result.unwrap_err(), "Failed to create container: no");
}

#[test]
fn mount_is_swapped() {
    let (tasks, load) = manager().swap_mount("u", "/srv/storage/v");
    assert_eq!(show(&tasks), ["!lock Swapping mount", "!state recreating"]);
    let (tasks, paths) = go(load.tracker_loaded(Ok(Some(tracker()))));
    assert_eq!(show(&tasks), TEARDOWN);
    let (_, step) = go(paths.resolved(Ok("/abs/v".to_string()), Ok("/abs/data".to_string())));
    let allocate = match step {
        SwapStep::Allocate(allocate) => allocate,
        SwapStep::Create(_) => panic!("there are ports"),
    };
    assert_eq!(allocate.ports.len(), 3);
    let create = match allocate.allocated(Ok(table(&[("80", "9100")]))) {
        Ok(create) => create,
        Err(_) => panic!("the ports were allocated"),
    };
    assert_eq!(create.config.name, "u");
    assert_eq!(create.config.env, strings(&["A=1", "LIGHTD_MANAGED=true"]));
    assert_eq!(create.config.binds, strings(&["/abs/v:/home/container", "/abs/data:/data:ro"]));
    let bindings = create.config.ports.as_ref().unwrap();
    assert_eq!(bindings[0].port, "80/tcp");
    assert_eq!((bindings[0].host_ip.as_str(), bindings[0].host_port.as_str()), ("0.0.0.0", "9100"));
    assert!(create.config.restart_unless_stopped);
    assert_eq!(create.config.oom_kill_disable, Some(false));
    let ending = create.created(Ok("new".to_string()));
    assert_eq!(
        show(&ending.tasks),
        ["save new", "save new", "id new", "state stopped", "unlock"]
    );
    assert_eq!(saved(&ending.tasks).allocated_ports[0].host_port, "9100");
    if let Action::SaveTracker(record) = &ending.tasks[1].action {
        assert_eq!(record.attached_volumes.len(), 1);
        assert_eq!(record.attached_volumes[0].source, "/srv/storage/v");
        assert_eq!(record.attached_volumes[0].target, "/home/container");
        assert_eq!(record.attached_volumes[0].read_only, Some(false));
        assert_eq!(record.allocated_ports.len(), 3);
    }
    assert_eq!(ending.result.unwrap(), "new");
}

#[test]
fn swap_fails_and_unlocks() {
    let paths = || {
        let (_, load) = manager().swap_mount("u", "/v");
        go(load.tracker_loaded(Ok(Some(tracker())))).1
    };
    let ending = end(paths().resolved(Err("gone".to_string()), Ok("/d".to_string())));
    assert_eq!(show(&ending.tasks), ["state failed", "unlock"]);
    assert_eq!(ending.result.unwrap_err(), "Failed to get absolute volume path: gone");
    let ending = end(paths().resolved(Ok("/v".to_string()), Err("gone".to_string())));
    assert_eq!(ending.result.unwrap_err(), "Failed to get absolute data path: gone");
    let (_, step) = go(paths().resolved(Ok("/v".to_string()), Ok("/d".to_string())));
    if let SwapStep::Allocate(allocate) = step {
        match allocate.allocated(Err("none".to_string())) {
            Err(ending) => {
                assert_eq!(show(&ending.tasks), ["state failed", "unlock"]);
                assert_eq!(ending.result.unwrap_err(), "Port allocation failed: none");
            }
            Ok(_) => panic!("there are no ports"),
        }
    }
    let mut bare = tracker();
    bare.allocated_ports = Vec::new();
    let (_, load) = manager().swap_mount("u", "/v");
    let (_, paths) = go(load.tracker_loaded(Ok(Some(bare))));
    let (_, step) = go(paths.resolved(Ok("/v".to_string()), Ok("/d".to_string())));
    match step {
        SwapStep::Create(create) => {
            assert!(create.config.ports.is_none());
            let ending = create.created(Err("no".to_string()));
            assert_eq!(show(&ending.tasks), ["state failed", "unlock"]);
            assert_eq!(ending.result.unwrap_err(), "Failed to create container: no");
        }
        SwapStep::Allocate(_) => panic!("there are no ports"),
    }
}

#[test]
fn reset_takes_the_mount_away() {
    let mut swapped = tracker();
    swapped.attached_volumes = vec![VolumeMount {
        source: "/v".to_string(),
        target: "/home/container".to_string(),
        read_only: Some(false),
    }];
    let (tasks, load) = manager().reset_mount("u");
    assert_eq!(show(&tasks), ["!lock Resetting mount", "!state recreating"]);
    let (tasks, create) = go(load.tracker_loaded(Ok(Some(swapped))));
    assert_eq!(show(&tasks), TEARDOWN);
    assert!(create.request.volumes.is_none());
    let ending = create.created(Ok(("new".to_string(), Vec::new())));
    assert_eq!(show(&ending.tasks), ["save new", "id new", "state stopped", "unlock"]);
    assert!(saved(&ending.tasks).attached_volumes.is_empty());
    let ending = end(manager().reset_mount("u").1.tracker_loaded(Ok(None)));
    assert_eq!(show(&ending.tasks), ["unlock"]);
    assert_eq!(ending.result.unwrap_err(), "Container tracker data not found");
}
