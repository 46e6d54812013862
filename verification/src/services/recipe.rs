//! What the containers of the daemon are made from.
//!
//! A container is a shell around the directories that bear its UUID: one with its data, and
//! one with the script that it runs.

use super::task::{
    all_keep_lock, attempt, insist, keeps_lock, Action, ActionView, Task, TaskView,
};
use crate::docker::network::{PortAllocation, PortAllocationView};
use crate::duplicate::Duplicate;
use crate::models::{
    ContainerTracker, ContainerTrackerView, CreateContainerRequest, CreateContainerRequestView,
    ResourceLimits, ResourceLimitsView, VolumeMount, VolumeMountView,
};
use crate::number::{parse_u16, parsed};
use crate::table::{pairs_map, Table};
use crate::text::{cat2, cat3, cat4, join_from, joined, same_text, texts};
use vstd::prelude::*;

verus! {

/// The directory with the data of a container.
pub open spec fn volume_path(volumes: Seq<char>, uuid: Seq<char>) -> Seq<char> {
    volumes + "/"@ + uuid
}

/// The directory with the script that a container runs.
pub open spec fn data_path(volumes: Seq<char>, uuid: Seq<char>) -> Seq<char> {
    volumes + "/"@ + uuid + "_data"@
}

/// The script that a container runs when it starts.
pub open spec fn entrypoint_path(volumes: Seq<char>, uuid: Seq<char>) -> Seq<char> {
    data_path(volumes, uuid) + "/entrypoint.sh"@
}

/// The directory with the data of a container.
pub fn volume_path_of(volumes: &str, uuid: &str) -> (r: String)
    ensures
        r@ == volume_path(volumes@, uuid@),
{
    cat3(volumes, "/", uuid)
}

/// The directory with the script that a container runs.
pub fn data_path_of(volumes: &str, uuid: &str) -> (r: String)
    ensures
        r@ == data_path(volumes@, uuid@),
{
    cat4(volumes, "/", uuid, "_data")
}

/// The script that a container runs when it starts.
pub fn entrypoint_path_of(volumes: &str, uuid: &str) -> (r: String)
    ensures
        r@ == entrypoint_path(volumes@, uuid@),
{
    cat2(data_path_of(volumes, uuid).as_str(), "/entrypoint.sh")
}

/// The command of every container: it runs the script.
pub open spec fn entrypoint_command() -> Seq<Seq<char>> {
    seq!["/bin/sh"@, "/data/entrypoint.sh"@]
}

/// The command of every container: it runs the script.
pub fn entrypoint_words() -> (r: Vec<String>)
    ensures
        r.deep_view() == entrypoint_command(),
{
    let mut r: Vec<String> = Vec::new();
    r.push("/bin/sh".to_string());
    r.push("/data/entrypoint.sh".to_string());
    assert(r.deep_view() =~= entrypoint_command());
    r
}

/// The words of a command from position `from` on, with single spaces between them.
pub fn join_words(words: &Vec<String>, from: usize) -> (r: String)
    requires
        from <= words.len(),
    ensures
        r@ == joined(words.deep_view().skip(from as int), " "@),
{
    assert(texts(words@) =~= words.deep_view());
    join_from(words.as_slice(), from, " ")
}

/// Whether a command asks a shell to run what follows.
pub open spec fn is_shell_call(words: Seq<Seq<char>>) -> bool {
    &&& words.len() >= 3
    &&& (words[0] == "sh"@ || words[0] == "/bin/sh"@)
    &&& words[1] == "-c"@
}

/// A command as a line of a script. What a shell is asked to run stands there itself.
pub open spec fn shell_line(words: Seq<Seq<char>>) -> Seq<char> {
    if is_shell_call(words) {
        joined(words.skip(2), " "@)
    } else {
        joined(words, " "@)
    }
}

/// A command as a line of a script.
pub fn shell_line_of(words: &Vec<String>) -> (r: String)
    ensures
        r@ == shell_line(words.deep_view()),
{
    assert(words.deep_view().skip(0) =~= words.deep_view());
    if words.len() >= 3 && (same_text(words[0].as_str(), "sh") || same_text(
        words[0].as_str(),
        "/bin/sh",
    )) && same_text(words[1].as_str(), "-c") {
        join_words(words, 2)
    } else {
        join_words(words, 0)
    }
}

/// The line that a container runs for a startup command; without one it only stays alive.
pub open spec fn startup_line(command: Option<Seq<Seq<char>>>) -> Seq<char> {
    match command {
        Some(words) => shell_line(words),
        None => "sleep infinity"@,
    }
}

/// The line that a container runs for a startup command.
pub fn startup_line_of(command: &Option<Vec<String>>) -> (r: String)
    ensures
        r@ == startup_line(command.deep_view()),
{
    match command {
        Some(words) => shell_line_of(words),
        None => "sleep infinity".to_string(),
    }
}

/// The tasks that give ports of the host back; what is no port is passed over.
pub open spec fn release_tasks(ports: Seq<PortAllocationView>) -> Seq<TaskView>
    decreases ports.len(),
{
    if ports.len() == 0 {
        Seq::empty()
    } else {
        match parsed(ports.last().host_port, u16::MAX as nat) {
            Some(port) => release_tasks(ports.drop_last()).push(
                attempt(ActionView::ReleasePort(port as u16)),
            ),
            None => release_tasks(ports.drop_last()),
        }
    }
}

/// Appends the tasks that give ports of the host back.
pub fn push_release_tasks(tasks: &mut Vec<Task>, ports: &Vec<PortAllocation>)
    ensures
        final(tasks).deep_view() == old(tasks).deep_view() + release_tasks(ports.deep_view()),
{
    let ghost start = tasks.deep_view();
    let ghost all = ports.deep_view();
    assert(all.take(0) =~= Seq::empty());
    assert(tasks.deep_view() =~= start + release_tasks(all.take(0)));
    for i in 0..ports.len()
        invariant
            all == ports.deep_view(),
            tasks.deep_view() == start + release_tasks(all.take(i as int)),
    {
        proof {
            assert(all.take(i + 1).drop_last() =~= all.take(i as int));
            assert(all.take(i + 1).last() == ports@[i as int].deep_view());
        }
        let ghost before = tasks.deep_view();
        if let Some(port) = parse_u16(ports[i].host_port.as_str()) {
            let task = Task::attempt(Action::ReleasePort(port));
            tasks.push(task);
            assert(tasks.deep_view() =~= before.push(task.deep_view()));
            assert(tasks.deep_view() =~= start + release_tasks(all.take(i + 1)));
        }
    }
    assert(all.take(all.len() as int) =~= all);
}

/// The tasks that take an old container away: it is stopped, removed after a pause, and its
/// ports are given back. That it may be gone already does not matter.
pub open spec fn teardown(
    container_id: Seq<char>,
    pause_ms: u64,
    ports: Seq<PortAllocationView>,
) -> Seq<TaskView> {
    seq![
        attempt(ActionView::Stop(container_id)),
        attempt(ActionView::Pause(pause_ms)),
        attempt(ActionView::Remove(container_id)),
    ] + release_tasks(ports)
}

/// Appends the tasks that take an old container away.
pub fn push_teardown(tasks: &mut Vec<Task>, tracker: &ContainerTracker, pause_ms: u64)
    ensures
        final(tasks).deep_view() == old(tasks).deep_view() + teardown(
            tracker.container_id@,
            pause_ms,
            tracker.allocated_ports.deep_view(),
        ),
{
    let ghost start = tasks.deep_view();
    tasks.push(Task::attempt(Action::Stop(tracker.container_id.clone())));
    tasks.push(Task::attempt(Action::Pause(pause_ms)));
    tasks.push(Task::attempt(Action::Remove(tracker.container_id.clone())));
    assert(tasks.deep_view() =~= start + seq![
        attempt(ActionView::Stop(tracker.container_id@)),
        attempt(ActionView::Pause(pause_ms)),
        attempt(ActionView::Remove(tracker.container_id@)),
    ]);
    push_release_tasks(tasks, &tracker.allocated_ports);
    assert(tasks.deep_view() =~= start + teardown(
        tracker.container_id@,
        pause_ms,
        tracker.allocated_ports.deep_view(),
    ));
}

/// Container ports and the host ports that they are bound to.
pub open spec fn port_pairs(ports: Seq<PortAllocationView>) -> Seq<(Seq<char>, Seq<char>)> {
    Seq::new(ports.len(), |i: int| (ports[i].container_port, ports[i].host_port))
}

/// The host port for each container port.
pub open spec fn port_map(ports: Seq<PortAllocationView>) -> Map<Seq<char>, Seq<char>> {
    pairs_map(port_pairs(ports))
}

/// The host port for each container port.
pub fn port_table(ports: &Vec<PortAllocation>) -> (r: Table<String>)
    ensures
        r@ == port_map(ports.deep_view()),
{
    let mut pairs: Vec<(String, String)> = Vec::new();
    for i in 0..ports.len()
        invariant
            pairs.len() == i,
            forall|k: int|
                0 <= k < i ==> (#[trigger] pairs@[k]).deep_view() == (
                    ports@[k].container_port@,
                    ports@[k].host_port@,
                ),
    {
        pairs.push((ports[i].container_port.clone(), ports[i].host_port.clone()));
    }
    assert(pairs.deep_view() =~= port_pairs(ports.deep_view()));
    Table::from_pairs(pairs)
}

/// A map, unless it is empty.
pub open spec fn unless_empty(map: Map<Seq<char>, Seq<char>>) -> Option<
    Map<Seq<char>, Seq<char>>,
> {
    if map == Map::<Seq<char>, Seq<char>>::empty() {
        None
    } else {
        Some(map)
    }
}

/// A table, unless it is empty.
pub fn table_unless_empty(table: Table<String>) -> (r: Option<Table<String>>)
    ensures
        r.deep_view() == unless_empty(table@),
{
    if table.is_empty() {
        None
    } else {
        Some(table)
    }
}

/// The bindings of TCP ports to all addresses of the host, from pairs of ports.
pub open spec fn tcp_allocations(pairs: Seq<(Seq<char>, Seq<char>)>) -> Seq<PortAllocationView> {
    Seq::new(
        pairs.len(),
        |i: int|
            PortAllocationView {
                container_port: pairs[i].0,
                host_port: pairs[i].1,
                host_ip: "0.0.0.0"@,
                protocol: "tcp"@,
            },
    )
}

/// The bindings of TCP ports to all addresses of the host, from a table of ports.
pub fn tcp_allocations_of(ports: &Table<String>) -> (r: Vec<PortAllocation>)
    ensures
        r.deep_view() == tcp_allocations(ports.pairs()),
{
    let mut r: Vec<PortAllocation> = Vec::new();
    let n = ports.len();
    for i in 0..n
        invariant
            n == ports.pairs().len(),
            r.len() == i,
            forall|k: int|
                0 <= k < i ==> (#[trigger] r@[k]).deep_view() == tcp_allocations(ports.pairs())[k],
    {
        r.push(
            PortAllocation {
                container_port: ports.key_at(i).to_string(),
                host_port: ports.value_at(i).clone(),
                host_ip: "0.0.0.0".to_string(),
                protocol: "tcp".to_string(),
            },
        );
    }
    assert(r.deep_view() =~= tcp_allocations(ports.pairs()));
    r
}

/// Environment variables as the engine takes them.
pub open spec fn env_lines(pairs: Seq<(Seq<char>, Seq<char>)>) -> Seq<Seq<char>> {
    Seq::new(pairs.len(), |i: int| pairs[i].0 + "="@ + pairs[i].1)
}

/// Environment variables as the engine takes them.
pub fn env_lines_of(env: &Table<String>) -> (r: Vec<String>)
    ensures
        r.deep_view() == env_lines(env.pairs()),
{
    let mut r: Vec<String> = Vec::new();
    let n = env.len();
    for i in 0..n
        invariant
            n == env.pairs().len(),
            r.len() == i,
            forall|k: int| 0 <= k < i ==> (#[trigger] r@[k])@ == env_lines(env.pairs())[k],
    {
        r.push(cat3(env.key_at(i), "=", env.value_at(i).as_str()));
    }
    assert(r.deep_view() =~= env_lines(env.pairs()));
    r
}

/// The request for a container that takes the place of the one that is recorded: it bears the
/// same UUID and name, runs the script, and has the ports that were given to the old one.
pub open spec fn successor_request(
    uuid: Seq<char>,
    tracker: ContainerTrackerView,
    image: Seq<char>,
    env: Option<Map<Seq<char>, Seq<char>>>,
    volumes: Option<Seq<VolumeMountView>>,
    limits: ResourceLimitsView,
) -> CreateContainerRequestView {
    CreateContainerRequestView {
        image,
        name: Some(tracker.name),
        description: tracker.description,
        startup_command: Some(entrypoint_command()),
        env,
        ports: unless_empty(port_map(tracker.allocated_ports)),
        volumes,
        command: None,
        working_dir: None,
        restart_policy: None,
        custom_uuid: Some(uuid),
        limits: Some(limits),
        install_content: None,
        runtime: tracker.runtime,
        request_id: None,
    }
}

/// The request for a container that takes the place of the one that is recorded.
pub fn successor_request_of(
    uuid: &str,
    tracker: &ContainerTracker,
    image: String,
    env: Option<Table<String>>,
    volumes: Option<Vec<VolumeMount>>,
    limits: ResourceLimits,
) -> (r: CreateContainerRequest)
    ensures
        r.deep_view() == successor_request(
            uuid@,
            tracker.deep_view(),
            image@,
            env.deep_view(),
            volumes.deep_view(),
            limits.deep_view(),
        ),
{
    CreateContainerRequest {
        image,
        name: Some(tracker.name.clone()),
        description: tracker.description.duplicate(),
        startup_command: Some(entrypoint_words()),
        env,
        ports: table_unless_empty(port_table(&tracker.allocated_ports)),
        volumes,
        command: None,
        working_dir: None,
        restart_policy: None,
        custom_uuid: Some(uuid.to_string()),
        limits: Some(limits),
        install_content: None,
        runtime: tracker.runtime.duplicate(),
        request_id: None,
    }
}

/// The tasks that give a container that is locked another startup command.
pub open spec fn startup_change(
    volumes: Seq<char>,
    uuid: Seq<char>,
    words: Seq<Seq<char>>,
) -> Seq<TaskView> {
    let entrypoint = entrypoint_path(volumes, uuid);
    seq![
        insist(
            ActionView::MakeDirectory(data_path(volumes, uuid)),
            "Failed to create data directory: "@,
        ),
        insist(
            ActionView::WriteFile { path: entrypoint, content: shell_line(words) + "\n"@ },
            "Failed to write entrypoint: "@,
        ),
        attempt(ActionView::MakeExecutable(entrypoint)),
        attempt(ActionView::SetStartupCommand(shell_line(words))),
        attempt(ActionView::TrackStartupCommand(words)),
    ]
}

/// Appends the tasks that give a container that is locked another startup command.
pub fn push_startup_change(tasks: &mut Vec<Task>, volumes: &str, uuid: &str, words: &Vec<String>)
    ensures
        final(tasks).deep_view() == old(tasks).deep_view() + startup_change(
            volumes@,
            uuid@,
            words.deep_view(),
        ),
{
    let ghost start = tasks.deep_view();
    let line = shell_line_of(words);
    let entrypoint = entrypoint_path_of(volumes, uuid);
    tasks.push(
        Task::insist(
            Action::MakeDirectory(data_path_of(volumes, uuid)),
            "Failed to create data directory: ",
        ),
    );
    tasks.push(
        Task::insist(
            Action::WriteFile { path: entrypoint.clone(), content: cat2(line.as_str(), "\n") },
            "Failed to write entrypoint: ",
        ),
    );
    tasks.push(Task::attempt(Action::MakeExecutable(entrypoint)));
    tasks.push(Task::attempt(Action::SetStartupCommand(line)));
    tasks.push(Task::attempt(Action::TrackStartupCommand(words.duplicate())));
    assert(tasks.deep_view() =~= start + startup_change(volumes@, uuid@, words.deep_view()));
}

/// Nothing that gives ports back can end an operation, or touches a lock.
pub proof fn law_release_cannot_fail(ports: Seq<PortAllocationView>)
    ensures
        forall|i: int|
            0 <= i < release_tasks(ports).len() ==> (#[trigger] release_tasks(ports)[i]).failure
                is None,
        all_keep_lock(release_tasks(ports)),
    decreases ports.len(),
{
    if ports.len() > 0 {
        law_release_cannot_fail(ports.drop_last());
    }
}

/// Nothing that takes an old container away can end an operation, or touches a lock.
pub proof fn law_teardown_cannot_fail(
    container_id: Seq<char>,
    pause_ms: u64,
    ports: Seq<PortAllocationView>,
)
    ensures
        forall|i: int|
            0 <= i < teardown(container_id, pause_ms, ports).len() ==> (#[trigger] teardown(
                container_id,
                pause_ms,
                ports,
            )[i]).failure is None,
        all_keep_lock(teardown(container_id, pause_ms, ports)),
{
    law_release_cannot_fail(ports);
    let tasks = teardown(container_id, pause_ms, ports);
    let released = release_tasks(ports);
    assert forall|i: int| 0 <= i < tasks.len() implies (#[trigger] tasks[i]).failure is None
        && keeps_lock(tasks[i]) by {
        if i >= 3 {
            assert(tasks[i] == released[i - 3]);
        }
    }
}

/// Every port of the host that an old container had is among those that are given back.
pub proof fn law_all_ports_released(ports: Seq<PortAllocationView>, i: int, port: nat)
    requires
        0 <= i < ports.len(),
        parsed(ports[i].host_port, u16::MAX as nat) == Some(port),
    ensures
        release_tasks(ports).contains(attempt(ActionView::ReleasePort(port as u16))),
    decreases ports.len(),
{
    let task = attempt(ActionView::ReleasePort(port as u16));
    let rest = ports.drop_last();
    if i == ports.len() - 1 {
        assert(release_tasks(ports)[release_tasks(rest).len() as int] == task);
    } else {
        law_all_ports_released(rest, i, port);
        let k = choose|k: int| 0 <= k < release_tasks(rest).len() && release_tasks(rest)[k] == task;
        assert(release_tasks(ports)[k] == task);
    }
}

/// A command that asks a shell to run a line is written as that line, so that wrapping a line
/// for a shell changes nothing.
pub proof fn law_shell_wrapping(line: Seq<char>)
    ensures
        shell_line(seq!["sh"@, "-c"@, line]) == line,
        shell_line(seq!["/bin/sh"@, "-c"@, line]) == line,
{
    assert(seq!["sh"@, "-c"@, line].skip(2) =~= seq![line]);
    assert(seq!["/bin/sh"@, "-c"@, line].skip(2) =~= seq![line]);
}

/// A container's files lie in a directory of the volumes that is named after it, and what the
/// daemon keeps for it in a second one beside that. The entrypoint lies in the second.
pub proof fn law_container_paths(volumes: Seq<char>, uuid: Seq<char>, other: Seq<char>)
    ensures
        volume_path(volumes, uuid) == volumes + "/"@ + uuid,
        data_path(volumes, uuid) == volume_path(volumes, uuid) + "_data"@,
        entrypoint_path(volumes, uuid) == data_path(volumes, uuid) + "/entrypoint.sh"@,
        volume_path(volumes, uuid) == volume_path(volumes, other) <==> uuid == other,
        data_path(volumes, uuid) == data_path(volumes, other) <==> uuid == other,
        entrypoint_path(volumes, uuid) == entrypoint_path(volumes, other) <==> uuid == other,
{
    let before = (volumes + "/"@).len() as int;
    if uuid != other {
        let a = volume_path(volumes, uuid);
        let b = volume_path(volumes, other);
        assert(a.skip(before) =~= uuid);
        assert(b.skip(before) =~= other);
        let data = "_data"@.len() as int;
        let c = data_path(volumes, uuid);
        let d = data_path(volumes, other);
        assert(c.take(c.len() - data) =~= a);
        assert(d.take(d.len() - data) =~= b);
        let file = "/entrypoint.sh"@.len() as int;
        let e = entrypoint_path(volumes, uuid);
        let f = entrypoint_path(volumes, other);
        assert(e.take(e.len() - file) =~= c);
        assert(f.take(f.len() - file) =~= d);
    }
}

/// Every container runs, with the shell, the file of the data directory that the daemon writes
/// its startup command to.
pub proof fn law_container_runs_its_entrypoint(volumes: Seq<char>, uuid: Seq<char>)
    ensures
        entrypoint_command().len() == 2,
        entrypoint_command()[0] == "/bin/sh"@,
        exists|name: Seq<char>| #[trigger]
            (data_path(volumes, uuid) + name) == entrypoint_path(volumes, uuid)
                && entrypoint_command()[1] == "/data"@ + name,
{
    reveal_strlit("/entrypoint.sh");
    reveal_strlit("/data");
    reveal_strlit("/data/entrypoint.sh");
    assert("/data/entrypoint.sh"@ =~= "/data"@ + "/entrypoint.sh"@);
    assert((data_path(volumes, uuid) + "/entrypoint.sh"@) == entrypoint_path(volumes, uuid));
}

/// The words of a command stand in one line, in order, with a blank between them. Of a call of
/// the shell only what the shell is to run stands there; a container without a command sleeps.
pub proof fn law_startup_line(words: Seq<Seq<char>>, shell: Seq<char>)
    requires
        shell == "sh"@ || shell == "/bin/sh"@,
    ensures
        startup_line(None) == "sleep infinity"@,
        startup_line(Some(words)) == shell_line(words),
        words.len() > 0 ==> shell_line(seq![shell, "-c"@] + words) == joined(words, " "@),
        words.len() < 3 ==> shell_line(words) == joined(words, " "@),
        words.len() >= 3 && words[0] != "sh"@ && words[0] != "/bin/sh"@ ==> shell_line(words)
            == joined(words, " "@),
        words.len() >= 3 && words[1] != "-c"@ ==> shell_line(words) == joined(words, " "@),
{
    assert((seq![shell, "-c"@] + words).skip(2) =~= words);
}

/// Nothing is released but host ports of the container, and none of them ends the work.
pub proof fn law_only_own_ports_released(ports: Seq<PortAllocationView>, i: int)
    requires
        0 <= i < release_tasks(ports).len(),
    ensures
        release_tasks(ports)[i].failure is None,
        exists|j: int|
            0 <= j < ports.len() && (parsed(
                (#[trigger] ports[j]).host_port,
                u16::MAX as nat,
            ) matches Some(port) && release_tasks(ports)[i].action == ActionView::ReleasePort(
                port as u16,
            )),
    decreases ports.len(),
{
    let before = ports.drop_last();
    if i < release_tasks(before).len() {
        law_only_own_ports_released(before, i);
        let j = choose|j: int|
            0 <= j < before.len() && (parsed(
                (#[trigger] before[j]).host_port,
                u16::MAX as nat,
            ) matches Some(port) && release_tasks(before)[i].action == ActionView::ReleasePort(
                port as u16,
            ));
        assert(ports[j] == before[j]);
    } else {
        let j = ports.len() - 1;
        assert(ports[j] == ports.last());
    }
}

/// A container is stopped, given a moment, and removed, in this order, and only then are its
/// ports released.
pub proof fn law_teardown_order(
    container_id: Seq<char>,
    pause_ms: u64,
    ports: Seq<PortAllocationView>,
    i: int,
    port: nat,
)
    requires
        0 <= i < ports.len(),
        parsed(ports[i].host_port, u16::MAX as nat) == Some(port),
    ensures
        ({
            let tasks = teardown(container_id, pause_ms, ports);
            &&& tasks.len() > 3
            &&& tasks[0].action == ActionView::Stop(container_id)
            &&& tasks[1].action == ActionView::Pause(pause_ms)
            &&& tasks[2].action == ActionView::Remove(container_id)
            &&& exists|k: int|
                3 <= k < tasks.len() && (#[trigger] tasks[k]).action == ActionView::ReleasePort(
                    port as u16,
                )
        }),
{
    law_all_ports_released(ports, i, port);
    let releases = release_tasks(ports);
    let tasks = teardown(container_id, pause_ms, ports);
    let k = choose|k: int|
        0 <= k < releases.len() && releases[k] == attempt(ActionView::ReleasePort(port as u16));
    assert(tasks[k + 3] == releases[k]);
}

/// The ports of a container keep their host ports: each container port is in the table with the
/// host port that it was given last, and no other port is.
pub proof fn law_port_table(ports: Seq<PortAllocationView>, key: Seq<char>, i: int)
    requires
        0 <= i < ports.len(),
        forall|j: int| i < j < ports.len() ==> (#[trigger] ports[j]).container_port
            != ports[i].container_port,
    ensures
        port_map(ports).contains_key(ports[i].container_port),
        port_map(ports)[ports[i].container_port] == ports[i].host_port,
        port_map(ports).contains_key(key) ==> exists|j: int|
            0 <= j < ports.len() && (#[trigger] ports[j]).container_port == key,
        port_map(Seq::empty()) == Map::<Seq<char>, Seq<char>>::empty(),
    decreases ports.len(),
{
    let before = ports.drop_last();
    assert(port_pairs(Seq::empty()) =~= Seq::empty());
    assert(port_pairs(ports).drop_last() =~= port_pairs(before));
    assert(port_pairs(ports).last() == (ports.last().container_port, ports.last().host_port));
    if i < before.len() {
        assert forall|j: int| i < j < before.len() implies (#[trigger] before[j]).container_port
            != before[i].container_port by {
            assert(ports[j].container_port != ports[i].container_port);
        }
        assert(ports[ports.len() - 1].container_port != ports[i].container_port);
        law_port_table(before, key, i);
    }
    lemma_port_keys(ports, key);
}

proof fn lemma_port_keys(ports: Seq<PortAllocationView>, key: Seq<char>)
    ensures
        port_map(ports).contains_key(key) ==> exists|j: int|
            0 <= j < ports.len() && (#[trigger] ports[j]).container_port == key,
    decreases ports.len(),
{
    if ports.len() > 0 {
        let before = ports.drop_last();
        assert(port_pairs(ports).drop_last() =~= port_pairs(before));
        lemma_port_keys(before, key);
        if port_map(ports).contains_key(key) {
            if key == ports.last().container_port {
                assert(ports[ports.len() - 1].container_port == key);
            } else {
                let j = choose|j: int|
                    0 <= j < before.len() && (#[trigger] before[j]).container_port == key;
                assert(ports[j].container_port == key);
            }
        }
    } else {
        assert(port_pairs(ports) =~= Seq::empty());
    }
}

/// Each pair of a table of ports is one allocation, on every address of the host and for TCP,
/// in the order of the pairs; read back they are the same pairs.
pub proof fn law_allocations(pairs: Seq<(Seq<char>, Seq<char>)>, i: int)
    ensures
        tcp_allocations(pairs).len() == pairs.len(),
        0 <= i < pairs.len() ==> {
            let allocation = tcp_allocations(pairs)[i];
            &&& allocation.container_port == pairs[i].0
            &&& allocation.host_port == pairs[i].1
            &&& allocation.host_ip == "0.0.0.0"@
            &&& allocation.protocol == "tcp"@
        },
        port_pairs(tcp_allocations(pairs)) == pairs,
{
    assert(port_pairs(tcp_allocations(pairs)) =~= pairs);
}

/// Each variable is one line, the name before the value, in the order of the pairs.
pub proof fn law_env_lines(pairs: Seq<(Seq<char>, Seq<char>)>, i: int)
    ensures
        env_lines(pairs).len() == pairs.len(),
        0 <= i < pairs.len() ==> env_lines(pairs)[i] == pairs[i].0 + "="@ + pairs[i].1,
{
}

/// A container that takes the place of another has its name, its description, its runtime and
/// its ports, answers to the given UUID, and runs its entrypoint with the image, environment,
/// mounts and limits that were chosen.
pub proof fn law_successor(
    uuid: Seq<char>,
    tracker: ContainerTrackerView,
    image: Seq<char>,
    env: Option<Map<Seq<char>, Seq<char>>>,
    volumes: Option<Seq<VolumeMountView>>,
    limits: ResourceLimitsView,
)
    ensures
        ({
            let request = successor_request(uuid, tracker, image, env, volumes, limits);
            let ports = port_map(tracker.allocated_ports);
            &&& request.image == image
            &&& request.name == Some(tracker.name)
            &&& request.description == tracker.description
            &&& request.startup_command == Some(seq!["/bin/sh"@, "/data/entrypoint.sh"@])
            &&& request.env == env
            &&& ports.dom().len() == 0 && ports.dom().finite() ==> request.ports is None
            &&& (exists|key: Seq<char>| ports.contains_key(key)) ==> request.ports == Some(ports)
            &&& request.volumes == volumes
            &&& request.command is None
            &&& request.working_dir is None
            &&& request.restart_policy is None
            &&& request.custom_uuid == Some(uuid)
            &&& request.limits == Some(limits)
            &&& request.install_content is None
            &&& request.runtime == tracker.runtime
            &&& request.request_id is None
        }),
{
    let ports = port_map(tracker.allocated_ports);
    if ports.dom().finite() && ports.dom().len() == 0 {
        assert(ports.dom() =~= Set::empty());
        assert(ports =~= Map::<Seq<char>, Seq<char>>::empty());
    }
    if exists|key: Seq<char>| ports.contains_key(key) {
        let key = choose|key: Seq<char>| ports.contains_key(key);
        assert(!Map::<Seq<char>, Seq<char>>::empty().contains_key(key));
    }
}

/// A new startup command is what the entrypoint holds, as one line, before anything remembers
/// it; what is remembered and what is recorded is the new command.
pub proof fn law_startup_change(volumes: Seq<char>, uuid: Seq<char>, words: Seq<Seq<char>>)
    ensures
        ({
            let tasks = startup_change(volumes, uuid, words);
            let entrypoint = volumes + "/"@ + uuid + "_data"@ + "/entrypoint.sh"@;
            &&& tasks.len() == 5
            &&& tasks[0].action == ActionView::MakeDirectory(volumes + "/"@ + uuid + "_data"@)
            &&& tasks[1].action == (ActionView::WriteFile {
                path: entrypoint,
                content: shell_line(words) + "\n"@,
            })
            &&& tasks[2].action == ActionView::MakeExecutable(entrypoint)
            &&& tasks[3].action == ActionView::SetStartupCommand(shell_line(words))
            &&& tasks[4].action == ActionView::TrackStartupCommand(words)
            &&& tasks[0].failure == Some("Failed to create data directory: "@) && tasks[0].unlocks
            &&& tasks[1].failure == Some("Failed to write entrypoint: "@) && tasks[1].unlocks
            &&& tasks[2].failure is None && tasks[3].failure is None && tasks[4].failure is None
        }),
{
}

} // verus!
