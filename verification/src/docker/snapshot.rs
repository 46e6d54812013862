//! Copies of the data of containers.
//!
//! A snapshot is a directory under the name of its identifier, with an archive and a record.

use super::storage_volume::{count_or_zero, newest_first, number_in, volume_dir, volumes_dir};
use crate::models::Timestamp;
use crate::order::{law_sorting_keeps_values, sort_by_rank, stably_sorted, Ranked};
use crate::outside::{is_random_uuid, lossy_text, random_uuid, utc_now, utf8_lossy};
use crate::services::task::result_view;
use crate::duplicate::Duplicate;
use crate::state_manager::{ContainerState, ContainerStateView};
use crate::text::{cat2, cat3};
use vstd::prelude::*;

verus! {

/// The record of a snapshot.
#[derive(Debug, Clone)]
pub struct SnapshotMetadata {
    pub snapshot_id: String,
    pub container_uuid: String,
    pub container_id: String,
    pub container_name: String,
    pub created_at: Timestamp,
    pub size_bytes: u64,
    pub file_count: u64,
    pub container_config: ContainerState,
}

/// What a [`SnapshotMetadata`] holds.
#[verifier::ext_equal]
pub struct SnapshotMetadataView {
    pub snapshot_id: Seq<char>,
    pub container_uuid: Seq<char>,
    pub container_id: Seq<char>,
    pub container_name: Seq<char>,
    pub created_at: Timestamp,
    pub size_bytes: u64,
    pub file_count: u64,
    pub container_config: ContainerStateView,
}

impl DeepView for SnapshotMetadata {
    type V = SnapshotMetadataView;

    open spec fn deep_view(&self) -> SnapshotMetadataView {
        SnapshotMetadataView {
            snapshot_id: self.snapshot_id@,
            container_uuid: self.container_uuid@,
            container_id: self.container_id@,
            container_name: self.container_name@,
            created_at: self.created_at,
            size_bytes: self.size_bytes,
            file_count: self.file_count,
            container_config: self.container_config.deep_view(),
        }
    }
}

/// What is told about a snapshot.
#[derive(Debug, Clone)]
pub struct SnapshotInfo {
    pub snapshot_id: String,
    pub container_uuid: String,
    pub container_name: String,
    pub created_at: Timestamp,
    pub size_bytes: u64,
    pub file_count: u64,
    pub status: String,
}

/// What a [`SnapshotInfo`] holds.
#[verifier::ext_equal]
pub struct SnapshotInfoView {
    pub snapshot_id: Seq<char>,
    pub container_uuid: Seq<char>,
    pub container_name: Seq<char>,
    pub created_at: Timestamp,
    pub size_bytes: u64,
    pub file_count: u64,
    pub status: Seq<char>,
}

impl DeepView for SnapshotInfo {
    type V = SnapshotInfoView;

    open spec fn deep_view(&self) -> SnapshotInfoView {
        SnapshotInfoView {
            snapshot_id: self.snapshot_id@,
            container_uuid: self.container_uuid@,
            container_name: self.container_name@,
            created_at: self.created_at,
            size_bytes: self.size_bytes,
            file_count: self.file_count,
            status: self.status@,
        }
    }
}

/// Where a snapshot and the data that it copies are.
#[derive(Debug, Clone)]
pub struct SnapshotPaths {
    pub snapshot_id: String,
    pub snapshot_dir: String,
    pub archive_path: String,
    pub metadata_path: String,
    /// The data of the container.
    pub volume_path: String,
}

/// What a [`SnapshotPaths`] holds.
#[verifier::ext_equal]
pub struct SnapshotPathsView {
    pub snapshot_id: Seq<char>,
    pub snapshot_dir: Seq<char>,
    pub archive_path: Seq<char>,
    pub metadata_path: Seq<char>,
    pub volume_path: Seq<char>,
}

impl DeepView for SnapshotPaths {
    type V = SnapshotPathsView;

    open spec fn deep_view(&self) -> SnapshotPathsView {
        SnapshotPathsView {
            snapshot_id: self.snapshot_id@,
            snapshot_dir: self.snapshot_dir@,
            archive_path: self.archive_path@,
            metadata_path: self.metadata_path@,
            volume_path: self.volume_path@,
        }
    }
}

impl Ranked for SnapshotInfo {
    open spec fn rank(v: SnapshotInfoView) -> int {
        newest_first(v.created_at)
    }

    fn ranks_before(&self, other: &Self) -> (r: bool) {
        self.created_at.is_after(other.created_at)
    }
}

/// The rank of a snapshot in a list of snapshots.
pub open spec fn snapshots_by_newest() -> spec_fn(SnapshotInfoView) -> int {
    |v: SnapshotInfoView| newest_first(v.created_at)
}

/// What is told about a snapshot, given its record.
pub open spec fn snapshot_info(metadata: SnapshotMetadataView) -> SnapshotInfoView {
    SnapshotInfoView {
        snapshot_id: metadata.snapshot_id,
        container_uuid: metadata.container_uuid,
        container_name: metadata.container_name,
        created_at: metadata.created_at,
        size_bytes: metadata.size_bytes,
        file_count: metadata.file_count,
        status: "available"@,
    }
}

/// What is told about snapshots, in the order in which they were found.
pub open spec fn snapshot_infos(found: Seq<SnapshotMetadataView>) -> Seq<SnapshotInfoView> {
    Seq::new(found.len(), |i: int| snapshot_info(found[i]))
}

/// The directory of the snapshots in a storage.
pub open spec fn snapshots_dir(storage: Seq<char>) -> Seq<char> {
    storage + "/snapshots"@
}

/// Where a snapshot and the data that it copies are. The data of containers is beside the
/// directory of the snapshots.
pub open spec fn snapshot_paths(
    storage: Seq<char>,
    snapshot_id: Seq<char>,
    container_uuid: Seq<char>,
) -> SnapshotPathsView {
    let dir = snapshots_dir(storage) + "/"@ + snapshot_id;
    SnapshotPathsView {
        snapshot_id,
        snapshot_dir: dir,
        archive_path: dir + "/workspace.tar.gz"@,
        metadata_path: dir + "/metadata.json"@,
        volume_path: storage + "/volumes/"@ + container_uuid,
    }
}

/// The shell command that empties a directory and keeps it.
pub open spec fn clear_command(volume: Seq<char>) -> Seq<char> {
    "cd '"@ + volume + "' && rm -rf * .[!.]* ..?* 2>/dev/null || true"@
}

/// The arguments with which tar unpacks an archive into a directory.
pub open spec fn extract_words(archive: Seq<char>, volume: Seq<char>) -> Seq<Seq<char>> {
    seq!["-xzf"@, archive, "-C"@, volume]
}

/// A step of a restore. The next one is taken only where it succeeds.
#[derive(Debug, Clone)]
pub enum RestoreStep {
    /// Makes a directory and those above it.
    MakeDirectory(String),
    /// Runs a shell command that empties the directory. That it fails does not matter.
    Clear(String),
    /// Runs tar with arguments that unpack the archive.
    Extract(Vec<String>),
}

/// What a [`RestoreStep`] holds.
#[verifier::ext_equal]
pub enum RestoreStepView {
    MakeDirectory(Seq<char>),
    Clear(Seq<char>),
    Extract(Seq<Seq<char>>),
}

impl DeepView for RestoreStep {
    type V = RestoreStepView;

    open spec fn deep_view(&self) -> RestoreStepView {
        match self {
            RestoreStep::MakeDirectory(a) => RestoreStepView::MakeDirectory(a@),
            RestoreStep::Clear(a) => RestoreStepView::Clear(a@),
            RestoreStep::Extract(a) => RestoreStepView::Extract(a.deep_view()),
        }
    }
}

/// What a restore does, in order: the directory of the data is emptied, or made where there is
/// none, and then the archive is unpacked into it.
pub open spec fn restoring(paths: SnapshotPathsView, has_volume: bool) -> Seq<RestoreStepView> {
    seq![
        if has_volume {
            RestoreStepView::Clear(clear_command(paths.volume_path))
        } else {
            RestoreStepView::MakeDirectory(paths.volume_path)
        },
        RestoreStepView::Extract(extract_words(paths.archive_path, paths.volume_path)),
    ]
}

/// The record of a snapshot of a container.
pub open spec fn snapshot_record(
    snapshot_id: Seq<char>,
    container_id: Seq<char>,
    container_uuid: Seq<char>,
    state: ContainerStateView,
    size_bytes: u64,
    file_count: u64,
    created_at: Timestamp,
) -> SnapshotMetadataView {
    SnapshotMetadataView {
        snapshot_id,
        container_uuid,
        container_id,
        container_name: state.name,
        created_at,
        size_bytes,
        file_count,
        container_config: state,
    }
}

/// The manager of the snapshots in a storage.
#[derive(Debug, Clone)]
pub struct SnapshotManager {
    pub storage_path: String,
}

/// Where the files of a snapshot are and go to, where there is an archive to restore.
pub open spec fn restorable(
    storage: Seq<char>,
    snapshot_id: Seq<char>,
    container_uuid: Seq<char>,
    has_archive: bool,
) -> Result<SnapshotPathsView, Seq<char>> {
    let paths = snapshot_paths(storage, snapshot_id, container_uuid);
    if has_archive {
        Ok(paths)
    } else {
        Err("Snapshot archive not found: "@ + paths.archive_path)
    }
}

/// The directory to delete with a snapshot, where it is there.
pub open spec fn snapshot_deletion(
    storage: Seq<char>,
    snapshot_id: Seq<char>,
    present: bool,
) -> Result<Seq<char>, Seq<char>> {
    if present {
        Ok(snapshots_dir(storage) + "/"@ + snapshot_id)
    } else {
        Err("Snapshot "@ + snapshot_id + " not found"@)
    }
}

/// The arguments with which `tar` makes the archive of a directory.
pub open spec fn archive_words(archive: Seq<char>, volume: Seq<char>) -> Seq<Seq<char>> {
    seq!["-czf"@, archive, "-C"@, volume, "."@]
}

/// What comes of an extraction, or why it failed.
pub open spec fn extraction(
    archive: Seq<char>,
    present: bool,
    success: bool,
    printed: Seq<char>,
) -> Result<(), Seq<char>> {
    if !present {
        Err("Archive does not exist: "@ + archive)
    } else if success {
        Ok(())
    } else {
        Err("Failed to extract archive: "@ + printed)
    }
}

/// How many files an archive holds, where there was something to archive.
pub open spec fn archived(volume: Seq<char>, present: bool, printed: Seq<char>) -> Result<
    nat,
    Seq<char>,
> {
    if present {
        Ok(count_or_zero(printed))
    } else {
        Err("Volume path does not exist: "@ + volume)
    }
}

impl SnapshotManager {
    /// A manager of the snapshots in a storage.
    pub fn new(storage_path: &str) -> (r: Self)
        ensures
            r.storage_path@ == storage_path@,
    {
        SnapshotManager { storage_path: storage_path.to_string() }
    }

    /// The directory of the snapshots.
    pub fn snapshots_path(&self) -> (r: String)
        ensures
            r@ == snapshots_dir(self.storage_path@),
    {
        cat2(self.storage_path.as_str(), "/snapshots")
    }

    /// Where a snapshot and the data of a container are.
    pub fn paths(&self, snapshot_id: &str, container_uuid: &str) -> (r: SnapshotPaths)
        ensures
            r.deep_view() == snapshot_paths(self.storage_path@, snapshot_id@, container_uuid@),
    {
        let dir = cat3(self.snapshots_path().as_str(), "/", snapshot_id);
        SnapshotPaths {
            snapshot_id: snapshot_id.to_string(),
            archive_path: cat2(dir.as_str(), "/workspace.tar.gz"),
            metadata_path: cat2(dir.as_str(), "/metadata.json"),
            snapshot_dir: dir,
            volume_path: cat3(self.storage_path.as_str(), "/volumes/", container_uuid),
        }
    }

    /// Where a new snapshot of a container is made, under a new random identifier.
    pub fn create_snapshot(&self, container_uuid: &str) -> (r: SnapshotPaths)
        ensures
            is_random_uuid(r.snapshot_id@),
            r.deep_view() == snapshot_paths(
                self.storage_path@,
                r.snapshot_id@,
                container_uuid@,
            ),
    {
        let snapshot_id = random_uuid();
        self.paths(snapshot_id.as_str(), container_uuid)
    }

    /// The state of the container of a snapshot, which must be known.
    pub fn snapshot_state(state: Option<ContainerState>) -> (r: Result<ContainerState, String>)
        ensures
            match state {
                Some(state) => r == Ok::<ContainerState, String>(state),
                None => r matches Err(e) && e@ == "Container not found in state manager"@,
            },
    {
        match state {
            Some(state) => Ok(state),
            None => Err("Container not found in state manager".to_string()),
        }
    }

    /// The number of files in a new archive, given whether there is anything to copy and what
    /// the command that counts wrote.
    pub fn create_workspace_archive_direct(volume_path: &str, present: bool, stdout: &Vec<u8>) -> (r:
        Result<u64, String>)
        ensures
            match r {
                Ok(n) => archived(volume_path@, present, lossy_text(stdout@)) == Ok::<nat, Seq<char>>(
                    n as nat,
                ),
                Err(e) => archived(volume_path@, present, lossy_text(stdout@)) == Err::<nat, Seq<char>>(
                    e@,
                ),
            },
    {
        if !present {
            return Err(cat2("Volume path does not exist: ", volume_path));
        }
        let text = utf8_lossy(stdout.as_slice());
        Ok(number_in(text.as_str()))
    }

    /// The record of a new snapshot.
    pub fn metadata(
        snapshot_id: &str,
        container_id: &str,
        container_uuid: &str,
        state: &ContainerState,
        size_bytes: u64,
        file_count: u64,
    ) -> (r: SnapshotMetadata)
        ensures
            r.created_at.secs >= 0,
            r.deep_view() == snapshot_record(
                snapshot_id@,
                container_id@,
                container_uuid@,
                state.deep_view(),
                size_bytes,
                file_count,
                r.created_at,
            ),
    {
        SnapshotMetadata {
            snapshot_id: snapshot_id.to_string(),
            container_uuid: container_uuid.to_string(),
            container_id: container_id.to_string(),
            container_name: state.name.clone(),
            created_at: utc_now(),
            size_bytes,
            file_count,
            container_config: state.duplicate(),
        }
    }

    /// Where a snapshot is restored from and to, given whether its archive is there.
    pub fn restore_snapshot(&self, snapshot_id: &str, container_uuid: &str, has_archive: bool) -> (r:
        Result<SnapshotPaths, String>)
        ensures
            result_view(r) == restorable(
                self.storage_path@,
                snapshot_id@,
                container_uuid@,
                has_archive,
            ),
    {
        let paths = self.paths(snapshot_id, container_uuid);
        if has_archive {
            Ok(paths)
        } else {
            Err(cat2("Snapshot archive not found: ", paths.archive_path.as_str()))
        }
    }

    /// What is told about the snapshots: the newest first.
    pub fn list_snapshots(found: Vec<SnapshotMetadata>) -> (r: Vec<SnapshotInfo>)
        ensures
            stably_sorted(
                snapshot_infos(found.deep_view()),
                r.deep_view(),
                snapshots_by_newest(),
            ),
    {
        let ghost all = found.deep_view();
        let mut infos: Vec<SnapshotInfo> = Vec::new();
        for metadata in it: found
            invariant
                it.seq() == found@,
                all == found.deep_view(),
                infos.len() == it.index(),
                forall|k: int|
                    0 <= k < infos.len() ==> (#[trigger] infos@[k]).deep_view() == snapshot_infos(
                        all,
                    )[k],
        {
            assert(all[it.index() as int] == metadata.deep_view());
            infos.push(
                SnapshotInfo {
                    snapshot_id: metadata.snapshot_id,
                    container_uuid: metadata.container_uuid,
                    container_name: metadata.container_name,
                    created_at: metadata.created_at,
                    size_bytes: metadata.size_bytes,
                    file_count: metadata.file_count,
                    status: "available".to_string(),
                },
            );
        }
        assert(infos.deep_view() =~= snapshot_infos(all));
        let r = sort_by_rank(infos);
        assert((|x: SnapshotInfoView| SnapshotInfo::rank(x)) =~= snapshots_by_newest());
        r
    }

    /// The directory to delete, given whether the snapshot is there.
    pub fn delete_snapshot(&self, snapshot_id: &str, present: bool) -> (r: Result<String, String>)
        ensures
            result_view(r) == snapshot_deletion(self.storage_path@, snapshot_id@, present),
    {
        if present {
            Ok(cat3(self.snapshots_path().as_str(), "/", snapshot_id))
        } else {
            Err(cat3("Snapshot ", snapshot_id, " not found"))
        }
    }

    /// The shell command that empties a directory and keeps it.
    pub fn clear_workspace_direct(volume_path: &str) -> (r: String)
        ensures
            r@ == clear_command(volume_path@),
    {
        cat3("cd '", volume_path, "' && rm -rf * .[!.]* ..?* 2>/dev/null || true")
    }

    /// Whether an archive was unpacked, given whether it is there and what the command left
    /// behind.
    pub fn extract_workspace_archive_direct(
        archive_path: &str,
        present: bool,
        success: bool,
        stderr: &Vec<u8>,
    ) -> (r: Result<(), String>)
        ensures
            result_view(r) == extraction(archive_path@, present, success, lossy_text(stderr@)),
    {
        if !present {
            return Err(cat2("Archive does not exist: ", archive_path));
        }
        if success {
            return Ok(());
        }
        let text = utf8_lossy(stderr.as_slice());
        Err(cat2("Failed to extract archive: ", text.as_str()))
    }

    /// The arguments with which an archive of a directory is made.
    pub fn archive_args(archive_path: &str, volume_path: &str) -> (r: Vec<String>)
        ensures
            r.deep_view() == archive_words(archive_path@, volume_path@),
    {
        let mut r: Vec<String> = Vec::new();
        r.push("-czf".to_string());
        r.push(archive_path.to_string());
        r.push("-C".to_string());
        r.push(volume_path.to_string());
        r.push(".".to_string());
        assert(r.deep_view() =~= seq!["-czf"@, archive_path@, "-C"@, volume_path@, "."@]);
        r
    }

    /// The arguments with which an archive is unpacked into a directory.
    pub fn extract_args(archive_path: &str, volume_path: &str) -> (r: Vec<String>)
        ensures
            r.deep_view() == extract_words(archive_path@, volume_path@),
    {
        let mut r: Vec<String> = Vec::new();
        r.push("-xzf".to_string());
        r.push(archive_path.to_string());
        r.push("-C".to_string());
        r.push(volume_path.to_string());
        assert(r.deep_view() =~= extract_words(archive_path@, volume_path@));
        r
    }

    /// What a restore does, in order, given whether the directory of the data is there.
    pub fn restore_steps(paths: &SnapshotPaths, has_volume: bool) -> (r: Vec<RestoreStep>)
        ensures
            r.deep_view() == restoring(paths.deep_view(), has_volume),
    {
        let archive = paths.archive_path.as_str();
        let volume = paths.volume_path.as_str();
        let mut r: Vec<RestoreStep> = Vec::new();
        if has_volume {
            r.push(RestoreStep::Clear(Self::clear_workspace_direct(volume)));
        } else {
            r.push(RestoreStep::MakeDirectory(volume.to_string()));
        }
        r.push(RestoreStep::Extract(Self::extract_args(archive, volume)));
        assert(r.deep_view() =~= restoring(paths.deep_view(), has_volume));
        r
    }
}

/// A snapshot is restored from where it was made, and the data goes back to where it was.
pub proof fn law_restore_matches_creation(
    storage: Seq<char>,
    snapshot_id: Seq<char>,
    container_uuid: Seq<char>,
    other_uuid: Seq<char>,
)
    ensures
        ({
            let made = snapshot_paths(storage, snapshot_id, container_uuid);
            let restored = snapshot_paths(storage, snapshot_id, other_uuid);
            &&& restored.archive_path == made.archive_path
            &&& restored.metadata_path == made.metadata_path
            &&& other_uuid == container_uuid ==> restored.volume_path == made.volume_path
        }),
{
}

/// Before an archive is unpacked, the directory that it is unpacked into has been emptied where
/// there was one, and nothing follows the unpacking.
pub proof fn law_cleared_before_extracted(paths: SnapshotPathsView, has_volume: bool, i: int)
    requires
        0 <= i < restoring(paths, has_volume).len(),
        restoring(paths, has_volume)[i] is Extract,
    ensures
        i == restoring(paths, has_volume).len() - 1,
        restoring(paths, has_volume)[i] == RestoreStepView::Extract(
            extract_words(paths.archive_path, paths.volume_path),
        ),
        has_volume ==> exists|j: int|
            0 <= j < i && #[trigger] restoring(paths, has_volume)[j] == RestoreStepView::Clear(
                clear_command(paths.volume_path),
            ),
{
    if has_volume {
        assert(restoring(paths, has_volume)[0] == RestoreStepView::Clear(
            clear_command(paths.volume_path),
        ));
    }
}

/// The data of a container is where the manager of the volumes in the same storage keeps it.
pub proof fn law_volumes_are_beside_snapshots(
    storage: Seq<char>,
    snapshot_id: Seq<char>,
    container_uuid: Seq<char>,
)
    ensures
        snapshot_paths(storage, snapshot_id, container_uuid).volume_path == volume_dir(
            volumes_dir(storage),
            container_uuid,
        ),
{
    reveal_strlit("/volumes");
    reveal_strlit("/volumes/");
    reveal_strlit("/");
    assert("/volumes"@ + "/"@ =~= "/volumes/"@);
    assert(storage + "/volumes"@ + "/"@ + container_uuid =~= storage + "/volumes/"@
        + container_uuid);
}

/// A list of snapshots holds each snapshot that was found, and no snapshot stands behind an older
/// one.
pub proof fn law_snapshots_newest_first(
    found: Seq<SnapshotMetadataView>,
    out: Seq<SnapshotInfoView>,
    i: int,
    j: int,
)
    requires
        stably_sorted(snapshot_infos(found), out, snapshots_by_newest()),
        0 <= i < j < out.len(),
    ensures
        !out[j].created_at.after(out[i].created_at),
        snapshot_infos(found).contains(out[i]),
        out.len() == found.len(),
{
    assert(snapshots_by_newest()(out[i]) <= snapshots_by_newest()(out[j]));
    law_sorting_keeps_values(snapshot_infos(found), out, snapshots_by_newest(), out[i]);
}

/// A snapshot lies in a directory of its own below the storage, which is named after it and
/// holds the archive and the record; different snapshots share nothing.
pub proof fn law_snapshot_paths(
    storage: Seq<char>,
    a: Seq<char>,
    b: Seq<char>,
    container_uuid: Seq<char>,
)
    ensures
        ({
            let paths = snapshot_paths(storage, a, container_uuid);
            let other = snapshot_paths(storage, b, container_uuid);
            let dir = storage + "/snapshots"@ + "/"@ + a;
            &&& paths.snapshot_id == a
            &&& paths.snapshot_dir == dir
            &&& paths.archive_path == dir + "/workspace.tar.gz"@
            &&& paths.metadata_path == dir + "/metadata.json"@
            &&& paths.volume_path == storage + "/volumes/"@ + container_uuid
            &&& paths.snapshot_dir == other.snapshot_dir <==> a == b
            &&& other.volume_path == paths.volume_path
        }),
{
    let before = (storage + "/snapshots"@ + "/"@).len() as int;
    assert(snapshot_paths(storage, a, container_uuid).snapshot_dir.skip(before) =~= a);
    assert(snapshot_paths(storage, b, container_uuid).snapshot_dir.skip(before) =~= b);
}

/// The record of a snapshot holds what it is of, when it was made and how large it is, and the
/// container as it was; what is shown of it is that record.
pub proof fn law_snapshot_record(
    ids: (Seq<char>, Seq<char>, Seq<char>),
    state: ContainerStateView,
    size_bytes: u64,
    file_count: u64,
    created_at: Timestamp,
)
    ensures
        ({
            let record = snapshot_record(
                ids.0,
                ids.1,
                ids.2,
                state,
                size_bytes,
                file_count,
                created_at,
            );
            let info = snapshot_info(record);
            &&& record.snapshot_id == ids.0
            &&& record.container_id == ids.1
            &&& record.container_uuid == ids.2
            &&& record.container_name == state.name
            &&& record.container_config == state
            &&& record.size_bytes == size_bytes
            &&& record.file_count == file_count
            &&& record.created_at == created_at
            &&& info.snapshot_id == ids.0
            &&& info.container_uuid == ids.2
            &&& info.container_name == state.name
            &&& info.created_at == created_at
            &&& info.size_bytes == size_bytes
            &&& info.file_count == file_count
            &&& info.status == "available"@
        }),
{
}

/// Every snapshot that was found is shown, and nothing else is.
pub proof fn law_listed_snapshots(found: Seq<SnapshotMetadataView>, i: int)
    ensures
        snapshot_infos(found).len() == found.len(),
        0 <= i < found.len() ==> {
            &&& snapshot_infos(found)[i].snapshot_id == found[i].snapshot_id
            &&& snapshot_infos(found)[i].container_uuid == found[i].container_uuid
            &&& snapshot_infos(found)[i].created_at == found[i].created_at
            &&& snapshot_infos(found)[i].size_bytes == found[i].size_bytes
            &&& snapshot_infos(found)[i].file_count == found[i].file_count
        },
{
}

/// A restore puts the files of the archive into the container's volume, which it empties first,
/// or makes where it is missing.
pub proof fn law_restore_steps(paths: SnapshotPathsView)
    ensures
        ({
            let steps = restoring(paths, true);
            &&& steps.len() == 2
            &&& steps[0] == RestoreStepView::Clear(
                "cd '"@ + paths.volume_path + "' && rm -rf * .[!.]* ..?* 2>/dev/null || true"@,
            )
            &&& steps[1] == RestoreStepView::Extract(
                seq!["-xzf"@, paths.archive_path, "-C"@, paths.volume_path],
            )
        }),
        ({
            let steps = restoring(paths, false);
            &&& steps.len() == 2
            &&& steps[0] == RestoreStepView::MakeDirectory(paths.volume_path)
            &&& steps[1] == restoring(paths, true)[1]
        }),
{
}

/// What is archived from a volume is extracted into one: both name the archive as the file and
/// the volume as the directory to work in, and all of the volume is archived.
pub proof fn law_extraction_undoes_archiving(archive: Seq<char>, volume: Seq<char>)
    ensures
        archive_words(archive, volume).len() == 5,
        archive_words(archive, volume)[0] == "-czf"@,
        extract_words(archive, volume).len() == 4,
        extract_words(archive, volume)[0] == "-xzf"@,
        archive_words(archive, volume)[1] == archive,
        extract_words(archive, volume)[1] == archive,
        archive_words(archive, volume)[2] == "-C"@,
        extract_words(archive, volume)[2] == "-C"@,
        archive_words(archive, volume)[3] == volume,
        extract_words(archive, volume)[3] == volume,
        archive_words(archive, volume)[4] == "."@,
        clear_command(volume) == "cd '"@ + volume
            + "' && rm -rf * .[!.]* ..?* 2>/dev/null || true"@,
{
}

/// A snapshot is restored where its archive is there, and deleted, with its whole directory,
/// where it is there.
pub proof fn law_snapshot_operations(
    storage: Seq<char>,
    snapshot_id: Seq<char>,
    container_uuid: Seq<char>,
)
    ensures
        restorable(storage, snapshot_id, container_uuid, true) matches Ok(paths) && {
            &&& paths.archive_path == storage + "/snapshots"@ + "/"@ + snapshot_id
                + "/workspace.tar.gz"@
            &&& paths.volume_path == storage + "/volumes/"@ + container_uuid
        },
        restorable(storage, snapshot_id, container_uuid, false) == Err::<
            SnapshotPathsView,
            Seq<char>,
        >(
            "Snapshot archive not found: "@ + (storage + "/snapshots"@ + "/"@ + snapshot_id
                + "/workspace.tar.gz"@),
        ),
        snapshot_deletion(storage, snapshot_id, true) == Ok::<Seq<char>, Seq<char>>(
            snapshot_paths(storage, snapshot_id, container_uuid).snapshot_dir,
        ),
        snapshot_deletion(storage, snapshot_id, false) == Err::<Seq<char>, Seq<char>>(
            "Snapshot "@ + snapshot_id + " not found"@,
        ),
{
}

/// An extraction succeeds where the archive is there and `tar` succeeds, and archiving where
/// there is a volume; else the error says which it was.
pub proof fn law_archive_outcomes(path: Seq<char>, printed: Seq<char>, success: bool)
    ensures
        extraction(path, true, true, printed) is Ok,
        extraction(path, true, false, printed) == Err::<(), Seq<char>>(
            "Failed to extract archive: "@ + printed,
        ),
        extraction(path, false, success, printed) == Err::<(), Seq<char>>(
            "Archive does not exist: "@ + path,
        ),
        archived(path, true, printed) == Ok::<nat, Seq<char>>(count_or_zero(printed)),
        archived(path, false, printed) == Err::<nat, Seq<char>>(
            "Volume path does not exist: "@ + path,
        ),
{
}

} // verus!
