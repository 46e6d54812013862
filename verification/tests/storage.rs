//! Snapshots and storage volumes.

use lightd::docker::snapshot::{RestoreStep, SnapshotManager};
use lightd::docker::storage_volume::{StorageVolumeManager, StorageVolumeMetadata};
use lightd::duplicate::Duplicate;
use lightd::models::{ContainerTracker, ResourceLimits, Timestamp, VolumeMount};
use lightd::handlers::storage_volume::{
    get_container_mount, reset_attachments, reset_container_mount, reset_reply, swap_attachments,
    swap_container_mount, swap_reply,
};
use lightd::state_manager::ContainerState;
use lightd::table::Table;

fn state() -> ContainerState {
    ContainerState {
        state: "running".to_string(),
        container_id: Some("c".to_string()),
        image: "alpine".to_string(),
        name: "server".to_string(),
        description: None,
        startup_command: None,
        disk_limit: None,
        memory_limit: None,
        cpu_limit: None,
        swap_limit: None,
        pids_limit: None,
        threads_limit: None,
        attached_volumes: Vec::new(),
        ports: Table::new(),
        env: None,
        created_at: Timestamp { secs: 0, nanos: 0 },
        updated_at: Timestamp { secs: 0, nanos: 0 },
        locked: None,
        lock_reason: None,
        locked_at: None,
        restart_policy: None,
        operation: None,
        operation_id: None,
        operation_message: None,
    }
}

fn volume(id: &str, secs: i64, nanos: u32) -> StorageVolumeMetadata {
    StorageVolumeMetadata {
        volume_id: id.to_string(),
        name: format!("volume {}", id),
        description: None,
        created_at: Timestamp { secs, nanos },
        size_bytes: 10,
        file_count: 2,
        attached_to: None,
        labels: Table::new(),
    }
}

fn tracker(volumes: Vec<VolumeMount>) -> ContainerTracker {
    ContainerTracker {
        custom_uuid: "u".to_string(),
        container_id: "c".to_string(),
        name: "server".to_string(),
        image: "alpine".to_string(),
        description: None,
        startup_command: None,
        created_at: Timestamp { secs: 0, nanos: 0 },
        limits: ResourceLimits::default(),
        allocated_ports: Vec::new(),
        attached_volumes: volumes,
        ports: Table::new(),
        env: None,
        status: "running".to_string(),
        runtime: None,
    }
}

fn mount(source: &str, target: &str) -> VolumeMount {
    VolumeMount { source: source.to_string(), target: target.to_string(), read_only: None }
}

#[test]
fn snapshots_lie_beside_the_volumes() {
    let manager = SnapshotManager::new("/srv");
    assert_eq!(manager.snapshots_path(), "/srv/snapshots");
    let paths = manager.paths("s", "u");
    assert_eq!(paths.snapshot_dir, "/srv/snapshots/s");
    assert_eq!(paths.archive_path, "/srv/snapshots/s/workspace.tar.gz");
    assert_eq!(paths.metadata_path, "/srv/snapshots/s/metadata.json");
    assert_eq!(paths.volume_path, "/srv/volumes/u");
    let nested = SnapshotManager::new("/srv/snapshots").paths("s", "u");
    assert_eq!(nested.snapshot_dir, "/srv/snapshots/snapshots/s");
    assert_eq!(nested.volume_path, "/srv/snapshots/volumes/u");
}

#[test]
fn new_snapshots_have_random_identifiers() {
    let manager = SnapshotManager::new("/srv");
    let a = manager.create_snapshot("u");
    let b = manager.create_snapshot("u");
    assert_ne!(a.snapshot_id, b.snapshot_id);
    assert_eq!(a.snapshot_id.len(), 36);
    assert_eq!(a.snapshot_dir, format!("/srv/snapshots/{}", a.snapshot_id));
    let restored = manager.restore_snapshot(&a.snapshot_id, "u", true).unwrap();
    assert_eq!(restored.archive_path, a.archive_path);
    assert_eq!(restored.volume_path, a.volume_path);
}

#[test]
fn snapshot_errors_are_told() {
    let manager = SnapshotManager::new("/srv");
    assert_eq!(
        manager.restore_snapshot("s", "u", false).unwrap_err(),
        "Snapshot archive not found: /srv/snapshots/s/workspace.tar.gz"
    );
    assert_eq!(manager.delete_snapshot("s", false).unwrap_err(), "Snapshot s not found");
    assert_eq!(manager.delete_snapshot("s", true).unwrap(), "/srv/snapshots/s");
    assert_eq!(SnapshotManager::snapshot_state(None).unwrap_err(), "Container not found in state manager");
    assert!(SnapshotManager::snapshot_state(Some(state())).is_ok());
    assert_eq!(
        SnapshotManager::create_workspace_archive_direct("/v", false, &Vec::new()).unwrap_err(),
        "Volume path does not exist: /v"
    );
    assert_eq!(
        SnapshotManager::extract_workspace_archive_direct("/a", false, true, &Vec::new()).unwrap_err(),
        "Archive does not exist: /a"
    );
    assert_eq!(
        SnapshotManager::extract_workspace_archive_direct("/a", true, false, &b"bad\xff".to_vec())
            .unwrap_err(),
        "Failed to extract archive: bad\u{fffd}"
    );
    assert!(SnapshotManager::extract_workspace_archive_direct("/a", true, true, &Vec::new()).is_ok());
}

#[test]
fn files_are_counted() {
    let count = |out: &[u8]| {
        SnapshotManager::create_workspace_archive_direct("/v", true, &out.to_vec()).unwrap()
    };
    assert_eq!(count(b"  42\n"), 42);
    assert_eq!(count(b"0"), 0);
    assert_eq!(count(b"many"), 0);
    assert_eq!(count(b""), 0);
}

#[test]
fn snapshots_are_listed_newest_first() {
    let make = |id: &str, secs: i64| {
        let mut m = SnapshotManager::metadata(id, "c", "u", &state(), 5, 6);
        m.created_at = Timestamp { secs, nanos: 0 };
        m
    };
    let list = SnapshotManager::list_snapshots(vec![make("a", 1), make("b", 3), make("c", 2)]);
    let ids: Vec<&str> = list.iter().map(|s| s.snapshot_id.as_str()).collect();
    assert_eq!(ids, ["b", "c", "a"]);
    assert_eq!(list[0].status, "available");
    assert_eq!(list[0].container_name, "server");
    assert_eq!((list[0].size_bytes, list[0].file_count), (5, 6));
}

#[test]
fn snapshot_metadata_is_taken_from_the_container() {
    let m = SnapshotManager::metadata("s", "c", "u", &state(), 5, 6);
    assert_eq!(m.container_name, "server");
    assert_eq!(m.container_config.image, "alpine");
    assert_eq!((m.snapshot_id.as_str(), m.container_id.as_str()), ("s", "c"));
    assert!(m.created_at.secs > 1_600_000_000);
}

#[test]
fn archive_commands() {
    assert_eq!(
        SnapshotManager::archive_args("/a.tar.gz", "/v").join(" "),
        "-czf /a.tar.gz -C /v ."
    );
    assert_eq!(
        SnapshotManager::extract_args("/a.tar.gz", "/v").join(" "),
        "-xzf /a.tar.gz -C /v"
    );
    assert_eq!(SnapshotManager::clear_workspace_direct("/v"), "cd '/v' && rm -rf * .[!.]* ..?* 2>/dev/null || true");
}

#[test]
fn workspace_is_cleared_before_the_archive_is_unpacked() {
    let paths = SnapshotManager::new("/srv").paths("s", "u");
    let show = |has_volume: bool| -> Vec<String> {
        SnapshotManager::restore_steps(&paths, has_volume)
            .into_iter()
            .map(|step| match step {
                RestoreStep::MakeDirectory(path) => format!("mkdir {}", path),
                RestoreStep::Clear(command) => command,
                RestoreStep::Extract(args) => format!("tar {}", args.join(" ")),
            })
            .collect()
    };
    let unpack = "tar -xzf /srv/snapshots/s/workspace.tar.gz -C /srv/volumes/u";
    assert_eq!(
        show(true),
        ["cd '/srv/volumes/u' && rm -rf * .[!.]* ..?* 2>/dev/null || true", unpack]
    );
    assert_eq!(show(false), ["mkdir /srv/volumes/u", unpack]);
}

#[test]
fn volume_paths_and_creation() {
    let manager = StorageVolumeManager::new("/srv");
    assert_eq!(manager.get_volume_path("v"), format!("{}/v", manager.volumes_path));
    let made = manager.create_volume("data", Some("words".to_string()), None);
    assert_eq!(made.volume_id.len(), 36);
    assert_eq!((made.name.as_str(), made.size_bytes, made.file_count), ("data", 0, 0));
    assert!(made.attached_to.is_none() && made.labels.is_empty());
    assert!(made.created_at.secs > 1_600_000_000);
    let id = made.volume_id.clone();
    let info = manager.info(made);
    assert_eq!(info.path, manager.get_volume_path(&id));
    assert_eq!(info.description.as_deref(), Some("words"));
}

#[test]
fn volumes_are_listed_newest_first() {
    let manager = StorageVolumeManager::new("/srv");
    let list = manager.list_volumes(vec![
        ("a".to_string(), volume("a", 1, 0)),
        ("b".to_string(), volume("b", 2, 7)),
        ("c".to_string(), volume("c", 2, 8)),
    ]);
    let ids: Vec<&str> = list.iter().map(|v| v.volume_id.as_str()).collect();
    assert_eq!(ids, ["c", "b", "a"]);
}

#[test]
fn volume_errors_are_told() {
    let manager = StorageVolumeManager::new("/srv");
    assert_eq!(manager.get_volume("v", None).unwrap_err(), "Volume v not found");
    assert_eq!(manager.delete_volume("v", &None).unwrap_err(), "Volume v not found");
    let mut attached = volume("v", 1, 0);
    attached.attached_to = Some("u".to_string());
    assert_eq!(
        manager.delete_volume("v", &Some(attached)).unwrap_err(),
        "Volume v is attached to container u"
    );
    assert_eq!(
        manager.delete_volume("v", &Some(volume("v", 1, 0))).unwrap(),
        manager.get_volume_path("v")
    );
    assert_eq!(
        StorageVolumeManager::set_attached("v", None, None).unwrap_err(),
        "Volume v not found"
    );
    assert_eq!(
        StorageVolumeManager::update_stats("v", None, (1, 2)).unwrap_err(),
        "Volume v not found"
    );
}

#[test]
fn attachment_is_kept() {
    let set = StorageVolumeManager::set_attached("v", Some(volume("v", 1, 0)), Some("u".to_string()));
    let kept = set.unwrap();
    assert_eq!(kept.attached_to.as_deref(), Some("u"));
    assert_eq!(kept.name, "volume v");
    let freed = StorageVolumeManager::set_attached("v", Some(kept.duplicate()), None).unwrap();
    assert!(freed.attached_to.is_none());
    let counted = StorageVolumeManager::update_stats("v", Some(kept), (100, 7)).unwrap();
    assert_eq!((counted.size_bytes, counted.file_count), (100, 7));
    assert_eq!(counted.attached_to.as_deref(), Some("u"));
}

#[test]
fn volume_sizes_are_read() {
    let stats = |size: &[u8], count: &[u8]| {
        StorageVolumeManager::calculate_volume_stats(&size.to_vec(), &count.to_vec())
    };
    assert_eq!(stats(b"4096\t/srv/v\n", b" 12\n"), (4096, 12));
    assert_eq!(stats(b"du: no such file", b"x"), (0, 0));
    assert_eq!(stats(b"", b""), (0, 0));
}

#[test]
fn volume_is_copied_from_a_container() {
    let manager = StorageVolumeManager::new("/srv");
    assert_eq!(
        manager.create_from_container("u", false).unwrap_err(),
        "Source container volume not found: u"
    );
    let plan = manager.create_from_container("u", true).unwrap();
    assert_eq!(plan.source, "/srv/volumes/u");
    assert_eq!(plan.target, manager.get_volume_path(&plan.volume_id));
    let made = StorageVolumeManager::clone_metadata(plan, "u", "copy", None, (9, 3));
    assert_eq!((made.size_bytes, made.file_count), (9, 3));
    assert_eq!(made.name, "copy");
    assert!(StorageVolumeManager::copied(true, &Vec::new()).is_ok());
    assert_eq!(made.labels.get("cloned_from").unwrap(), "u");
    assert_eq!(
        StorageVolumeManager::copied(false, &b"no space".to_vec()).unwrap_err(),
        "Failed to copy volume: no space"
    );
}

#[test]
fn mount_of_a_container_is_shown() {
    let shown = get_container_mount("/srv", "u", true, Ok(Some(tracker(Vec::new())))).data.unwrap();
    assert_eq!(shown.current_volume_path, "/srv/u");
    assert!(shown.is_default_volume);
    let swapped = vec![mount("/x", "/data"), mount("/v", "/home/container")];
    let shown = get_container_mount("/srv", "u", true, Ok(Some(tracker(swapped)))).data.unwrap();
    assert_eq!(shown.current_volume_path, "/v");
    assert!(!shown.is_default_volume);
    let refused = |known: bool, reply| get_container_mount("/srv", "u", known, reply).message.unwrap();
    assert_eq!(refused(false, Ok(Some(tracker(Vec::new())))), "Container u not found");
    assert_eq!(refused(true, Ok(None)), "Container tracker data not found");
    assert_eq!(refused(true, Err("io".to_string())), "Failed to load container data: io");
}

#[test]
fn volume_belongs_to_one_container() {
    let manager = StorageVolumeManager::new("/srv");
    let info = |owner: Option<&str>| {
        let mut v = volume("v", 1, 0);
        v.attached_to = owner.map(|o| o.to_string());
        Ok(manager.info(v))
    };
    let ask = |known: bool, locked: bool, v| {
        swap_container_mount("u", "v", known, locked, &Ok(()), v, Ok(Some(tracker(Vec::new()))))
    };
    assert_eq!(ask(true, false, info(None)).unwrap(), manager.get_volume_path("v"));
    assert_eq!(ask(true, false, info(Some("u"))).unwrap(), manager.get_volume_path("v"));
    assert_eq!(
        ask(true, false, info(Some("other"))).unwrap_err(),
        "Volume v is already attached to container other"
    );
    assert_eq!(ask(false, false, info(None)).unwrap_err(), "Container u not found");
    assert_eq!(ask(true, true, info(None)).unwrap_err(), "Container is currently locked");
    assert_eq!(
        ask(true, false, Err("gone".to_string())).unwrap_err(),
        "Volume not found: gone"
    );
    let unready =
        swap_container_mount("u", "v", true, false, &Err("io".to_string()), info(None), Ok(None));
    assert_eq!(unready.unwrap_err(), "Failed to initialize storage: io");
    let untracked = swap_container_mount("u", "v", true, false, &Ok(()), info(None), Ok(None));
    assert_eq!(untracked.unwrap_err(), "Container tracker data not found");
}

#[test]
fn swap_and_reset_are_answered() {
    let done = swap_reply("/srv", "u", "/v", Ok("new".to_string())).data.unwrap();
    assert_eq!((done.old_volume_path.as_str(), done.new_volume_path.as_str()), ("/srv/u", "/v"));
    assert_eq!(done.new_container_id, "new");
    assert_eq!(done.message, "Mount swapped successfully for container u");
    let failed = swap_reply("/srv", "u", "/v", Err("no".to_string()));
    assert_eq!(failed.message.as_deref(), Some("Failed to swap mount: no"));
    let back = reset_reply("/srv", "u", "/v", Ok("new".to_string())).data.unwrap();
    assert_eq!((back.old_volume_path.as_str(), back.new_volume_path.as_str()), ("/v", "/srv/u"));
    assert_eq!(back.message, "Mount reset to default for container u");
    let failed = reset_reply("/srv", "u", "/v", Err("no".to_string()));
    assert_eq!(failed.message.as_deref(), Some("Failed to reset mount: no"));
    let swapped = || tracker(vec![mount("/v", "/home/container")]);
    assert_eq!(reset_container_mount("/srv", "u", true, false, Ok(Some(swapped()))).unwrap(), "/v");
    let locked = reset_container_mount("/srv", "u", true, true, Ok(Some(swapped())));
    assert_eq!(locked.unwrap_err(), "Container is currently locked");
    let plain = reset_container_mount("/srv", "u", true, false, Ok(Some(tracker(Vec::new()))));
    assert_eq!(plain.unwrap_err(), "Container is already using default volume");
}

#[test]
fn container_has_only_the_volume_that_it_sees() {
    let records = || {
        let mut old = volume("old", 1, 0);
        old.attached_to = Some("u".to_string());
        let mut foreign = volume("foreign", 1, 0);
        foreign.attached_to = Some("other".to_string());
        vec![
            ("old".to_string(), old),
            ("new".to_string(), volume("new", 1, 0)),
            ("foreign".to_string(), foreign),
        ]
    };
    let show = |changed: Vec<(String, StorageVolumeMetadata)>| -> Vec<(String, Option<String>)> {
        changed.into_iter().map(|(id, v)| (id, v.attached_to)).collect()
    };
    let ok = Ok("c".to_string());
    assert_eq!(
        show(swap_attachments("u", "new", &ok, records())),
        [("old".to_string(), None), ("new".to_string(), Some("u".to_string()))]
    );
    assert!(swap_attachments("u", "old", &ok, records()).is_empty());
    assert_eq!(show(reset_attachments("u", &ok, records())), [("old".to_string(), None)]);
    let failed = Err("no".to_string());
    assert!(swap_attachments("u", "new", &failed, records()).is_empty());
    assert!(reset_attachments("u", &failed, records()).is_empty());
}
