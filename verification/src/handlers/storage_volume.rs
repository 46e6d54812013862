//! Requests about volumes and about the data directory of a container.

use crate::docker::storage_volume::{
    with_attachment, StorageVolumeInfo, StorageVolumeInfoView, StorageVolumeMetadata,
    StorageVolumeMetadataView,
};
use crate::models::{
    error_reply, success_reply, ApiResponse, ApiResponseView, ContainerTracker,
    ContainerTrackerView, VolumeMount, VolumeMountView,
};
use crate::services::recipe::{volume_path, volume_path_of};
use crate::services::task::result_view;
use crate::table::Table;
use crate::text::{cat2, cat3, cat4, same_text};
use vstd::prelude::*;

verus! {

/// A request for a new, empty volume.
#[derive(Debug, Clone)]
pub struct CreateStorageVolumeRequest {
    pub name: String,
    pub description: Option<String>,
    pub labels: Option<Table<String>>,
}

/// A request for a volume with the data of a container.
#[derive(Debug, Clone)]
pub struct CloneVolumeRequest {
    pub source_container_uuid: String,
    pub name: String,
    pub description: Option<String>,
}

/// A request for another data directory.
#[derive(Debug, Clone)]
pub struct SwapMountRequest {
    pub new_volume_id: String,
}

/// What a container sees as its data.
#[derive(Debug, Clone)]
pub struct MountInfo {
    pub container_uuid: String,
    pub current_volume_path: String,
    pub is_default_volume: bool,
}

/// What a [`MountInfo`] holds.
#[verifier::ext_equal]
pub struct MountInfoView {
    pub container_uuid: Seq<char>,
    pub current_volume_path: Seq<char>,
    pub is_default_volume: bool,
}

impl DeepView for MountInfo {
    type V = MountInfoView;

    open spec fn deep_view(&self) -> MountInfoView {
        MountInfoView {
            container_uuid: self.container_uuid@,
            current_volume_path: self.current_volume_path@,
            is_default_volume: self.is_default_volume,
        }
    }
}

/// The answer to a change of the data directory.
#[derive(Debug, Clone)]
pub struct SwapMountResponse {
    pub container_uuid: String,
    pub old_volume_path: String,
    pub new_volume_path: String,
    pub new_container_id: String,
    pub message: String,
}

/// What a [`SwapMountResponse`] holds.
#[verifier::ext_equal]
pub struct SwapMountResponseView {
    pub container_uuid: Seq<char>,
    pub old_volume_path: Seq<char>,
    pub new_volume_path: Seq<char>,
    pub new_container_id: Seq<char>,
    pub message: Seq<char>,
}

impl DeepView for SwapMountResponse {
    type V = SwapMountResponseView;

    open spec fn deep_view(&self) -> SwapMountResponseView {
        SwapMountResponseView {
            container_uuid: self.container_uuid@,
            old_volume_path: self.old_volume_path@,
            new_volume_path: self.new_volume_path@,
            new_container_id: self.new_container_id@,
            message: self.message@,
        }
    }
}

/// What is answered of the storage, given whether it is there.
pub open spec fn storage_answer<T>(prepared: bool, result: Result<T, Seq<char>>) -> ApiResponseView<
    T,
> {
    if !prepared {
        error_reply("Failed to initialize storage"@)
    } else {
        match result {
            Ok(data) => success_reply(data),
            Err(e) => error_reply(e),
        }
    }
}

/// The reply where the storage could not be prepared.
pub fn storage_reply<T: DeepView>(prepared: bool, result: Result<T, String>) -> (r: ApiResponse<T>)
    ensures
        r.deep_view() == storage_answer(prepared, result_view(result)),
{
    if !prepared {
        return ApiResponse::error("Failed to initialize storage".to_string());
    }
    match result {
        Ok(data) => ApiResponse::success(data),
        Err(e) => ApiResponse::error(e),
    }
}

/// The text of the answer to the deletion of a volume.
pub fn delete_storage_volume(volume_id: &str) -> (r: String)
    ensures
        r@ == "Volume "@ + volume_id@ + " deleted"@,
{
    cat3("Volume ", volume_id, " deleted")
}

/// What is said of a container that is not known.
pub open spec fn no_container(uuid: Seq<char>) -> Seq<char> {
    "Container "@ + uuid + " not found"@
}

/// The record of a container, or why there is none.
pub open spec fn record_of(
    uuid: Seq<char>,
    known: bool,
    reply: Result<Option<ContainerTrackerView>, Seq<char>>,
) -> Result<ContainerTrackerView, Seq<char>> {
    if !known {
        Err(no_container(uuid))
    } else {
        match reply {
            Ok(Some(tracker)) => Ok(tracker),
            Ok(None) => Err("Container tracker data not found"@),
            Err(e) => Err("Failed to load container data: "@ + e),
        }
    }
}

fn find_record(uuid: &str, known: bool, reply: Result<Option<ContainerTracker>, String>) -> (r:
    Result<ContainerTracker, String>)
    ensures
        result_view(r) == record_of(uuid@, known, result_view(reply)),
{
    if !known {
        return Err(cat3("Container ", uuid, " not found"));
    }
    match reply {
        Ok(Some(tracker)) => Ok(tracker),
        Ok(None) => Err("Container tracker data not found".to_string()),
        Err(e) => Err(cat2("Failed to load container data: ", e.as_str())),
    }
}

/// The first of the mounts that stands in for the data directory of a container, if one does.
pub open spec fn data_mount(volumes: Seq<VolumeMountView>) -> Option<VolumeMountView>
    decreases volumes.len(),
{
    if volumes.len() == 0 {
        None
    } else if volumes[0].target == "/home/container"@ {
        Some(volumes[0])
    } else {
        data_mount(volumes.drop_first())
    }
}

/// What a container sees as its data: a mount that stands in for it, or its own directory.
pub open spec fn current_volume(
    volumes_path: Seq<char>,
    uuid: Seq<char>,
    volumes: Seq<VolumeMountView>,
) -> Seq<char> {
    match data_mount(volumes) {
        Some(mount) => mount.source,
        None => volume_path(volumes_path, uuid),
    }
}

fn find_data_mount(volumes: &Vec<VolumeMount>) -> (r: Option<String>)
    ensures
        r.deep_view() == match data_mount(volumes.deep_view()) {
            Some(mount) => Some(mount.source),
            None => None,
        },
{
    let ghost all = volumes.deep_view();
    assert(all.skip(0) =~= all);
    for i in 0..volumes.len()
        invariant
            all == volumes.deep_view(),
            data_mount(all) == data_mount(all.skip(i as int)),
    {
        assert(all.skip(i as int).drop_first() =~= all.skip(i + 1));
        assert(all.skip(i as int)[0] == volumes@[i as int].deep_view());
        if same_text(volumes[i].target.as_str(), "/home/container") {
            return Some(volumes[i].source.clone());
        }
    }
    assert(all.skip(all.len() as int) =~= Seq::<VolumeMountView>::empty());
    None
}

fn current_volume_of(volumes_path: &str, uuid: &str, tracker: &ContainerTracker) -> (r: String)
    ensures
        r@ == current_volume(volumes_path@, uuid@, tracker.attached_volumes.deep_view()),
{
    match find_data_mount(&tracker.attached_volumes) {
        Some(source) => source,
        None => volume_path_of(volumes_path, uuid),
    }
}

/// What a container sees as its data, as it is told.
pub open spec fn mount_reply(
    volumes_path: Seq<char>,
    uuid: Seq<char>,
    known: bool,
    reply: Result<Option<ContainerTrackerView>, Seq<char>>,
) -> ApiResponseView<MountInfoView> {
    match record_of(uuid, known, reply) {
        Err(e) => error_reply(e),
        Ok(tracker) => {
            let current = current_volume(volumes_path, uuid, tracker.attached_volumes);
            success_reply(
                MountInfoView {
                    container_uuid: uuid,
                    current_volume_path: current,
                    is_default_volume: current == volume_path(volumes_path, uuid),
                },
            )
        },
    }
}

/// What a container sees as its data, given whether it is known, and its record.
pub fn get_container_mount(
    volumes_path: &str,
    uuid: &str,
    known: bool,
    reply: Result<Option<ContainerTracker>, String>,
) -> (r: ApiResponse<MountInfo>)
    ensures
        r.deep_view() == mount_reply(volumes_path@, uuid@, known, result_view(reply)),
{
    match find_record(uuid, known, reply) {
        Err(e) => ApiResponse::error(e),
        Ok(tracker) => {
            let current = current_volume_of(volumes_path, uuid, &tracker);
            let own = volume_path_of(volumes_path, uuid);
            let is_default_volume = same_text(current.as_str(), own.as_str());
            ApiResponse::success(
                MountInfo {
                    container_uuid: uuid.to_string(),
                    current_volume_path: current,
                    is_default_volume,
                },
            )
        },
    }
}

/// Why a container may not be given a volume; `Ok` holds the directory of the volume.
pub open spec fn swap_decision(
    uuid: Seq<char>,
    volume_id: Seq<char>,
    known: bool,
    locked: bool,
    prepared: Result<(), String>,
    volume: Result<StorageVolumeInfoView, Seq<char>>,
    reply: Result<Option<ContainerTrackerView>, Seq<char>>,
) -> Result<Seq<char>, Seq<char>> {
    if !known {
        Err(no_container(uuid))
    } else if locked {
        Err("Container is currently locked"@)
    } else if prepared is Err {
        Err("Failed to initialize storage: "@ + prepared->Err_0@)
    } else {
        match volume {
            Err(e) => Err("Volume not found: "@ + e),
            Ok(volume) => match volume.attached_to {
                Some(other) if other != uuid => Err(
                    "Volume "@ + volume_id + " is already attached to container "@ + other,
                ),
                _ => match record_of(uuid, known, reply) {
                    Err(e) => Err(e),
                    Ok(_) => Ok(volume.path),
                },
            },
        }
    }
}

/// The directory that a container is given, or why it may not be given the volume: one volume is
/// not given to two containers.
pub fn swap_container_mount(
    uuid: &str,
    volume_id: &str,
    known: bool,
    locked: bool,
    prepared: &Result<(), String>,
    volume: Result<StorageVolumeInfo, String>,
    reply: Result<Option<ContainerTracker>, String>,
) -> (r: Result<String, String>)
    ensures
        result_view(r) == swap_decision(
            uuid@,
            volume_id@,
            known,
            locked,
            *prepared,
            result_view(volume),
            result_view(reply),
        ),
{
    if !known {
        return Err(cat3("Container ", uuid, " not found"));
    }
    if locked {
        return Err("Container is currently locked".to_string());
    }
    if let Err(e) = prepared {
        return Err(cat2("Failed to initialize storage: ", e.as_str()));
    }
    let volume = match volume {
        Ok(volume) => volume,
        Err(e) => {
            return Err(cat2("Volume not found: ", e.as_str()));
        },
    };
    if let Some(other) = &volume.attached_to {
        if !same_text(other.as_str(), uuid) {
            return Err(
                cat4(
                    "Volume ",
                    volume_id,
                    " is already attached to container ",
                    other.as_str(),
                ),
            );
        }
    }
    match find_record(uuid, known, reply) {
        Err(e) => Err(e),
        Ok(_) => Ok(volume.path),
    }
}

/// What is answered where a volume was to be swapped in.
pub open spec fn swapped_reply(
    volumes_path: Seq<char>,
    uuid: Seq<char>,
    new_volume_path: Seq<char>,
    result: Result<Seq<char>, Seq<char>>,
) -> ApiResponseView<SwapMountResponseView> {
    match result {
        Ok(container_id) => success_reply(
            SwapMountResponseView {
                container_uuid: uuid,
                old_volume_path: volume_path(volumes_path, uuid),
                new_volume_path,
                new_container_id: container_id,
                message: "Mount swapped successfully for container "@ + uuid,
            },
        ),
        Err(e) => error_reply("Failed to swap mount: "@ + e),
    }
}

/// The answer to a swap of the data directory. The container's own directory is named as the old
/// one.
pub fn swap_reply(
    volumes_path: &str,
    uuid: &str,
    new_volume_path: &str,
    result: Result<String, String>,
) -> (r: ApiResponse<SwapMountResponse>)
    ensures
        r.deep_view() == swapped_reply(
            volumes_path@,
            uuid@,
            new_volume_path@,
            result_view(result),
        ),
{
    match result {
        Ok(container_id) => ApiResponse::success(
            SwapMountResponse {
                container_uuid: uuid.to_string(),
                old_volume_path: volume_path_of(volumes_path, uuid),
                new_volume_path: new_volume_path.to_string(),
                new_container_id: container_id,
                message: cat2("Mount swapped successfully for container ", uuid),
            },
        ),
        Err(e) => ApiResponse::error(cat2("Failed to swap mount: ", e.as_str())),
    }
}

/// Why the data directory of a container may not be reset; `Ok` holds the one that it has.
pub open spec fn reset_decision(
    volumes_path: Seq<char>,
    uuid: Seq<char>,
    known: bool,
    locked: bool,
    reply: Result<Option<ContainerTrackerView>, Seq<char>>,
) -> Result<Seq<char>, Seq<char>> {
    if known && locked {
        Err("Container is currently locked"@)
    } else {
        match record_of(uuid, known, reply) {
            Err(e) => Err(e),
            Ok(tracker) => {
                let current = current_volume(volumes_path, uuid, tracker.attached_volumes);
                if current == volume_path(volumes_path, uuid) {
                    Err("Container is already using default volume"@)
                } else {
                    Ok(current)
                }
            },
        }
    }
}

/// The data directory that a container has, or why it may not be reset.
pub fn reset_container_mount(
    volumes_path: &str,
    uuid: &str,
    known: bool,
    locked: bool,
    reply: Result<Option<ContainerTracker>, String>,
) -> (r: Result<String, String>)
    ensures
        result_view(r) == reset_decision(
            volumes_path@,
            uuid@,
            known,
            locked,
            result_view(reply),
        ),
{
    if known && locked {
        return Err("Container is currently locked".to_string());
    }
    match find_record(uuid, known, reply) {
        Err(e) => Err(e),
        Ok(tracker) => {
            let current = current_volume_of(volumes_path, uuid, &tracker);
            let own = volume_path_of(volumes_path, uuid);
            if same_text(current.as_str(), own.as_str()) {
                Err("Container is already using default volume".to_string())
            } else {
                Ok(current)
            }
        },
    }
}

/// What is answered where a mount was to be reset.
pub open spec fn back_to_default_reply(
    volumes_path: Seq<char>,
    uuid: Seq<char>,
    old_volume_path: Seq<char>,
    result: Result<Seq<char>, Seq<char>>,
) -> ApiResponseView<SwapMountResponseView> {
    match result {
        Ok(container_id) => success_reply(
            SwapMountResponseView {
                container_uuid: uuid,
                old_volume_path,
                new_volume_path: volume_path(volumes_path, uuid),
                new_container_id: container_id,
                message: "Mount reset to default for container "@ + uuid,
            },
        ),
        Err(e) => error_reply("Failed to reset mount: "@ + e),
    }
}

/// The answer to a reset of the data directory.
pub fn reset_reply(
    volumes_path: &str,
    uuid: &str,
    old_volume_path: &str,
    result: Result<String, String>,
) -> (r: ApiResponse<SwapMountResponse>)
    ensures
        r.deep_view() == back_to_default_reply(
            volumes_path@,
            uuid@,
            old_volume_path@,
            result_view(result),
        ),
{
    match result {
        Ok(container_id) => ApiResponse::success(
            SwapMountResponse {
                container_uuid: uuid.to_string(),
                old_volume_path: old_volume_path.to_string(),
                new_volume_path: volume_path_of(volumes_path, uuid),
                new_container_id: container_id,
                message: cat2("Mount reset to default for container ", uuid),
            },
        ),
        Err(e) => ApiResponse::error(cat2("Failed to reset mount: ", e.as_str())),
    }
}

/// The container that has a volume once a container has the volume `mounted` as its data, or none
/// at all: no container has two volumes.
pub open spec fn new_owner(
    uuid: Seq<char>,
    mounted: Option<Seq<char>>,
    volume_id: Seq<char>,
    owner: Option<Seq<char>>,
) -> Option<Seq<char>> {
    if mounted == Some(volume_id) {
        Some(uuid)
    } else if owner == Some(uuid) {
        None
    } else {
        owner
    }
}

/// The records of volumes that are written anew once a container has the volume `mounted` as its
/// data, or none at all. `found` are the records of all volumes.
pub open spec fn new_records(
    uuid: Seq<char>,
    mounted: Option<Seq<char>>,
    found: Seq<(Seq<char>, StorageVolumeMetadataView)>,
) -> Seq<(Seq<char>, StorageVolumeMetadataView)>
    decreases found.len(),
{
    if found.len() == 0 {
        Seq::empty()
    } else {
        let (volume_id, metadata) = found.last();
        let before = new_records(uuid, mounted, found.drop_last());
        let owner = new_owner(uuid, mounted, volume_id, metadata.attached_to);
        if owner == metadata.attached_to {
            before
        } else {
            before.push((volume_id, with_attachment(metadata, owner)))
        }
    }
}

fn rewrite_records(
    uuid: &str,
    mounted: Option<&str>,
    found: Vec<(String, StorageVolumeMetadata)>,
) -> (r: Vec<(String, StorageVolumeMetadata)>)
    ensures
        r.deep_view() == new_records(
            uuid@,
            match mounted {
                Some(volume_id) => Some(volume_id@),
                None => None,
            },
            found.deep_view(),
        ),
{
    let ghost all = found.deep_view();
    let ghost target = match mounted {
        Some(volume_id) => Some(volume_id@),
        None => None,
    };
    let mut r: Vec<(String, StorageVolumeMetadata)> = Vec::new();
    assert(all.take(0) =~= Seq::empty());
    assert(r.deep_view() =~= Seq::<(Seq<char>, StorageVolumeMetadataView)>::empty());
    for entry in it: found
        invariant
            it.seq() == found@,
            all == found.deep_view(),
            target == match mounted {
                Some(volume_id) => Some(volume_id@),
                None => None,
            },
            r.deep_view() == new_records(uuid@, target, all.take(it.index() as int)),
    {
        let ghost n = it.index() as int;
        let ghost before = r.deep_view();
        assert(all[n] == entry.deep_view());
        assert(all.take(n + 1).drop_last() =~= all.take(n));
        assert(all.take(n + 1).last() == all[n]);
        let (volume_id, metadata) = entry;
        let is_mounted = match mounted {
            Some(mounted) => same_text(mounted, volume_id.as_str()),
            None => false,
        };
        let is_owned = match &metadata.attached_to {
            Some(owner) => same_text(owner.as_str(), uuid),
            None => false,
        };
        if is_mounted != is_owned {
            let mut record = metadata;
            record.attached_to = if is_mounted {
                Some(uuid.to_string())
            } else {
                None
            };
            r.push((volume_id, record));
            assert(r.deep_view() =~= before.push((volume_id@, record.deep_view())));
        }
    }
    assert(all.take(all.len() as int) =~= all);
    r
}

/// The records to write after a volume was to be mounted, or after none is any more: none where
/// that failed.
pub open spec fn records_after(
    uuid: Seq<char>,
    mounted: Option<Seq<char>>,
    done: bool,
    found: Seq<(Seq<char>, StorageVolumeMetadataView)>,
) -> Seq<(Seq<char>, StorageVolumeMetadataView)> {
    if done {
        new_records(uuid, mounted, found)
    } else {
        Seq::empty()
    }
}

/// The records of volumes that a swap of the data directory writes anew, given what came of it and
/// the records of all volumes: the container has the new volume, and no longer the old one.
pub fn swap_attachments(
    uuid: &str,
    volume_id: &str,
    result: &Result<String, String>,
    found: Vec<(String, StorageVolumeMetadata)>,
) -> (r: Vec<(String, StorageVolumeMetadata)>)
    ensures
        r.deep_view() == records_after(
            uuid@,
            Some(volume_id@),
            result is Ok,
            found.deep_view(),
        ),
{
    if result.is_err() {
        let none: Vec<(String, StorageVolumeMetadata)> = Vec::new();
        assert(none.deep_view() =~= Seq::empty());
        return none;
    }
    rewrite_records(uuid, Some(volume_id), found)
}

/// The records of volumes that a reset of the data directory writes anew, given what came of it
/// and the records of all volumes: the container has no volume any more.
pub fn reset_attachments(
    uuid: &str,
    result: &Result<String, String>,
    found: Vec<(String, StorageVolumeMetadata)>,
) -> (r: Vec<(String, StorageVolumeMetadata)>)
    ensures
        r.deep_view() == records_after(uuid@, None, result is Ok, found.deep_view()),
{
    if result.is_err() {
        let none: Vec<(String, StorageVolumeMetadata)> = Vec::new();
        assert(none.deep_view() =~= Seq::empty());
        return none;
    }
    rewrite_records(uuid, None, found)
}

/// Once the records that change are written anew, a container has the volume that it was given and
/// no other one; after a reset it has none. What other containers have stays theirs.
pub proof fn law_mounts_are_attached(
    uuid: Seq<char>,
    mounted: Option<Seq<char>>,
    found: Seq<(Seq<char>, StorageVolumeMetadataView)>,
    i: int,
)
    requires
        0 <= i < found.len(),
    ensures
        ({
            let (volume_id, metadata) = found[i];
            let owner = new_owner(uuid, mounted, volume_id, metadata.attached_to);
            &&& owner == Some(uuid) <==> mounted == Some(volume_id)
            &&& mounted != Some(volume_id) && metadata.attached_to != Some(uuid) ==> owner
                == metadata.attached_to
            &&& owner != metadata.attached_to ==> new_records(uuid, mounted, found).contains(
                (volume_id, with_attachment(metadata, owner)),
            )
        }),
    decreases found.len(),
{
    let (volume_id, metadata) = found[i];
    let owner = new_owner(uuid, mounted, volume_id, metadata.attached_to);
    let record = (volume_id, with_attachment(metadata, owner));
    let all = new_records(uuid, mounted, found);
    let before = new_records(uuid, mounted, found.drop_last());
    if owner != metadata.attached_to {
        if i == found.len() - 1 {
            assert(all[all.len() - 1] == record);
        } else {
            assert(found.drop_last()[i] == found[i]);
            law_mounts_are_attached(uuid, mounted, found.drop_last(), i);
            let j = choose|j: int| 0 <= j < before.len() && before[j] == record;
            assert(all[j] == record);
        }
    }
}

/// A volume that one container has is not given to another.
pub proof fn law_volume_has_one_container(
    uuid: Seq<char>,
    volume_id: Seq<char>,
    volume: StorageVolumeInfoView,
    known: bool,
    locked: bool,
    prepared: Result<(), String>,
    reply: Result<Option<ContainerTrackerView>, Seq<char>>,
)
    requires
        volume.attached_to is Some,
        volume.attached_to->0 != uuid,
    ensures
        swap_decision(uuid, volume_id, known, locked, prepared, Ok(volume), reply) is Err,
{
}

/// After a swap a container sees the new directory; without a mount it sees its own.
pub proof fn law_mount_is_seen(volumes_path: Seq<char>, uuid: Seq<char>, source: Seq<char>)
    ensures
        current_volume(
            volumes_path,
            uuid,
            seq![
                VolumeMountView { source, target: "/home/container"@, read_only: Some(false) },
            ],
        ) == source,
        current_volume(volumes_path, uuid, Seq::empty()) == volume_path(volumes_path, uuid),
{
}

/// The record of a container is had where the container is known and recorded; else the error
/// says what is missing.
pub proof fn law_records(uuid: Seq<char>, tracker: ContainerTrackerView, e: Seq<char>)
    ensures
        record_of(uuid, true, Ok(Some(tracker))) == Ok::<ContainerTrackerView, Seq<char>>(tracker),
        record_of(uuid, true, Ok(None)) == Err::<ContainerTrackerView, Seq<char>>(
            "Container tracker data not found"@,
        ),
        record_of(uuid, true, Err(e)) == Err::<ContainerTrackerView, Seq<char>>(
            "Failed to load container data: "@ + e,
        ),
        record_of(uuid, false, Ok(Some(tracker))) == Err::<ContainerTrackerView, Seq<char>>(
            "Container "@ + uuid + " not found"@,
        ),
{
}

/// A container sees what its first mount on its own directory brings, and its own directory
/// where nothing is mounted there; it then uses its default.
pub proof fn law_current_volume(
    volumes_path: Seq<char>,
    uuid: Seq<char>,
    volumes: Seq<VolumeMountView>,
    i: int,
)
    requires
        0 <= i <= volumes.len(),
        forall|j: int| 0 <= j < i ==> (#[trigger] volumes[j]).target != "/home/container"@,
        i < volumes.len() ==> volumes[i].target == "/home/container"@,
    ensures
        i < volumes.len() ==> current_volume(volumes_path, uuid, volumes) == volumes[i].source,
        i == volumes.len() ==> current_volume(volumes_path, uuid, volumes) == volumes_path + "/"@
            + uuid,
    decreases volumes.len(),
{
    if i > 0 {
        assert(volumes[0].target != "/home/container"@);
        let rest = volumes.drop_first();
        assert forall|j: int| 0 <= j < i - 1 implies (#[trigger] rest[j]).target
            != "/home/container"@ by {
            assert(rest[j] == volumes[j + 1]);
        }
        law_current_volume(volumes_path, uuid, rest, i - 1);
    }
}

/// What is told of a container's mount is what it sees, and whether that is its own directory.
pub proof fn law_mount_reply(
    volumes_path: Seq<char>,
    uuid: Seq<char>,
    tracker: ContainerTrackerView,
    reply: Result<Option<ContainerTrackerView>, Seq<char>>,
)
    ensures
        ({
            let current = current_volume(volumes_path, uuid, tracker.attached_volumes);
            let told = mount_reply(volumes_path, uuid, true, Ok(Some(tracker)));
            &&& told.success
            &&& told.data matches Some(info) && {
                &&& info.container_uuid == uuid
                &&& info.current_volume_path == current
                &&& info.is_default_volume <==> current == volumes_path + "/"@ + uuid
            }
        }),
        !mount_reply(volumes_path, uuid, false, reply).success,
{
}

/// A volume is swapped in exactly where the container is known, not locked and recorded, the
/// storage is there, and the volume is there and belongs to no other container; what is mounted
/// is then that volume.
pub proof fn law_swap_decision(
    uuid: Seq<char>,
    volume_id: Seq<char>,
    known: bool,
    locked: bool,
    prepared: Result<(), String>,
    volume: Result<StorageVolumeInfoView, Seq<char>>,
    reply: Result<Option<ContainerTrackerView>, Seq<char>>,
)
    ensures
        ({
            let decision = swap_decision(
                uuid,
                volume_id,
                known,
                locked,
                prepared,
                volume,
                reply,
            );
            &&& decision is Ok <==> known && !locked && prepared is Ok && volume is Ok && (
            volume->Ok_0.attached_to is None || volume->Ok_0.attached_to == Some(uuid)) && reply
                is Ok && reply->Ok_0 is Some
            &&& decision is Ok ==> decision->Ok_0 == volume->Ok_0.path
            &&& !known ==> decision == Err::<Seq<char>, Seq<char>>(
                "Container "@ + uuid + " not found"@,
            )
            &&& known && locked ==> decision == Err::<Seq<char>, Seq<char>>(
                "Container is currently locked"@,
            )
            &&& known && !locked ==> (prepared matches Err(e) ==> decision == Err::<
                Seq<char>,
                Seq<char>,
            >("Failed to initialize storage: "@ + e@))
            &&& known && !locked && prepared is Ok ==> (volume matches Err(e) ==> decision == Err::<
                Seq<char>,
                Seq<char>,
            >("Volume not found: "@ + e))
            &&& known && !locked && prepared is Ok ==> (volume matches Ok(volume) ==> (
            volume.attached_to matches Some(other) ==> (other != uuid ==> decision == Err::<
                Seq<char>,
                Seq<char>,
            >("Volume "@ + volume_id + " is already attached to container "@ + other))))
        }),
{
}

/// A mount is reset exactly where the container is known, not locked and recorded, and sees
/// something else than its own directory.
pub proof fn law_reset_decision(
    volumes_path: Seq<char>,
    uuid: Seq<char>,
    known: bool,
    locked: bool,
    reply: Result<Option<ContainerTrackerView>, Seq<char>>,
)
    ensures
        ({
            let decision = reset_decision(volumes_path, uuid, known, locked, reply);
            &&& decision is Ok <==> known && !locked && reply is Ok && reply->Ok_0 is Some
                && current_volume(volumes_path, uuid, reply->Ok_0->0.attached_volumes)
                != volumes_path + "/"@ + uuid
            &&& decision is Ok ==> decision->Ok_0 == current_volume(
                volumes_path,
                uuid,
                reply->Ok_0->0.attached_volumes,
            )
            &&& known && locked ==> decision == Err::<Seq<char>, Seq<char>>(
                "Container is currently locked"@,
            )
            &&& known && !locked && decision is Err && reply is Ok && reply->Ok_0 is Some
                ==> decision == Err::<Seq<char>, Seq<char>>(
                "Container is already using default volume"@,
            )
        }),
{
}

/// Only records of volumes that were found are rewritten, and of those only who has the volume.
pub proof fn law_only_owners_change(
    uuid: Seq<char>,
    mounted: Option<Seq<char>>,
    found: Seq<(Seq<char>, StorageVolumeMetadataView)>,
    i: int,
)
    requires
        0 <= i < new_records(uuid, mounted, found).len(),
    ensures
        exists|j: int|
            0 <= j < found.len() && {
                let written = new_records(uuid, mounted, found)[i];
                &&& written.0 == (#[trigger] found[j]).0
                &&& written.1 == (StorageVolumeMetadataView {
                    attached_to: written.1.attached_to,
                    ..found[j].1
                })
                &&& written.1.attached_to != found[j].1.attached_to
                &&& written.1.attached_to == (if mounted == Some(written.0) {
                    Some(uuid)
                } else {
                    None
                })
            },
    decreases found.len(),
{
    let before = found.drop_last();
    if i < new_records(uuid, mounted, before).len() {
        law_only_owners_change(uuid, mounted, before, i);
        let written = new_records(uuid, mounted, before)[i];
        let j = choose|j: int|
            0 <= j < before.len() && {
                &&& written.0 == (#[trigger] before[j]).0
                &&& written.1 == (StorageVolumeMetadataView {
                    attached_to: written.1.attached_to,
                    ..before[j].1
                })
                &&& written.1.attached_to != before[j].1.attached_to
                &&& written.1.attached_to == (if mounted == Some(written.0) {
                    Some(uuid)
                } else {
                    None
                })
            };
        assert(found[j] == before[j]);
        assert(new_records(uuid, mounted, found)[i] == written);
    } else {
        let j = found.len() - 1;
        assert(found[j] == found.last());
    }
}

/// What is answered names the container, its new name in the engine and both directories: the
/// new one of a swap is the one that was asked for, that of a reset the container's own.
pub proof fn law_mount_changes_are_told(
    volumes_path: Seq<char>,
    uuid: Seq<char>,
    path: Seq<char>,
    container_id: Seq<char>,
    e: Seq<char>,
)
    ensures
        swapped_reply(volumes_path, uuid, path, Ok(container_id)).data matches Some(told) && {
            &&& told.container_uuid == uuid
            &&& told.old_volume_path == volumes_path + "/"@ + uuid
            &&& told.new_volume_path == path
            &&& told.new_container_id == container_id
            &&& told.message == "Mount swapped successfully for container "@ + uuid
        },
        swapped_reply(volumes_path, uuid, path, Ok(container_id)).success,
        !swapped_reply(volumes_path, uuid, path, Err(e)).success,
        swapped_reply(volumes_path, uuid, path, Err(e)).message == Some(
            "Failed to swap mount: "@ + e,
        ),
        back_to_default_reply(volumes_path, uuid, path, Ok(container_id)).data matches Some(told)
            && {
            &&& told.container_uuid == uuid
            &&& told.old_volume_path == path
            &&& told.new_volume_path == volumes_path + "/"@ + uuid
            &&& told.new_container_id == container_id
            &&& told.message == "Mount reset to default for container "@ + uuid
        },
        back_to_default_reply(volumes_path, uuid, path, Ok(container_id)).success,
        !back_to_default_reply(volumes_path, uuid, path, Err(e)).success,
        back_to_default_reply(volumes_path, uuid, path, Err(e)).message == Some(
            "Failed to reset mount: "@ + e,
        ),
{
}

/// A mount that was not changed changes no record; one that was is attached from then on, and a
/// volume that the container had before, or has no more after a reset, is free.
pub proof fn law_attachments_follow_mounts(
    uuid: Seq<char>,
    mounted: Option<Seq<char>>,
    found: Seq<(Seq<char>, StorageVolumeMetadataView)>,
    i: int,
)
    requires
        0 <= i < found.len(),
    ensures
        records_after(uuid, mounted, false, found).len() == 0,
        mounted == Some(found[i].0) && found[i].1.attached_to != Some(uuid) ==> records_after(
            uuid,
            mounted,
            true,
            found,
        ).contains(
            (
                found[i].0,
                StorageVolumeMetadataView { attached_to: Some(uuid), ..found[i].1 },
            ),
        ),
        mounted != Some(found[i].0) && found[i].1.attached_to == Some(uuid) ==> records_after(
            uuid,
            mounted,
            true,
            found,
        ).contains((found[i].0, StorageVolumeMetadataView { attached_to: None, ..found[i].1 })),
{
    law_mounts_are_attached(uuid, mounted, found, i);
}

/// Without its storage nothing is answered but that; with it, what was asked for, or the error.
pub proof fn law_storage_answers(data: int, e: Seq<char>, result: Result<int, Seq<char>>)
    ensures
        storage_answer(true, Ok::<int, Seq<char>>(data)).success,
        storage_answer(true, Ok::<int, Seq<char>>(data)).data == Some(data),
        !storage_answer(true, Err::<int, Seq<char>>(e)).success,
        storage_answer(true, Err::<int, Seq<char>>(e)).message == Some(e),
        !storage_answer(false, result).success,
        storage_answer(false, result).data is None,
        storage_answer(false, result).message == Some("Failed to initialize storage"@),
{
}

} // verus!
