//! Data directories on the host that containers can be given.
//!
//! A volume is a directory under the name of its identifier, with a record of itself inside.

use crate::duplicate::Duplicate;
use crate::models::Timestamp;
use crate::number::{
    decimal, law_number_reads_back, law_only_digits_are_read, parse_u64, parsed,
};
use crate::order::{law_sorting_keeps_values, sort_by_rank, stably_sorted, Ranked};
use crate::outside::{is_random_uuid, lossy_text, random_uuid, utc_now, utf8_lossy};
use crate::services::task::result_view;
use crate::table::Table;
use crate::text::{cat2, cat3, cat4, is_white, law_next_word, next_word, split_word, trim, trim_of};
use vstd::prelude::*;

verus! {

/// The record of a volume.
#[derive(Debug, Clone)]
pub struct StorageVolumeMetadata {
    pub volume_id: String,
    pub name: String,
    pub description: Option<String>,
    pub created_at: Timestamp,
    pub size_bytes: u64,
    pub file_count: u64,
    /// The UUID of the container that has it.
    pub attached_to: Option<String>,
    pub labels: Table<String>,
}

/// What a [`StorageVolumeMetadata`] holds.
#[verifier::ext_equal]
pub struct StorageVolumeMetadataView {
    pub volume_id: Seq<char>,
    pub name: Seq<char>,
    pub description: Option<Seq<char>>,
    pub created_at: Timestamp,
    pub size_bytes: u64,
    pub file_count: u64,
    pub attached_to: Option<Seq<char>>,
    pub labels: Map<Seq<char>, Seq<char>>,
}

impl DeepView for StorageVolumeMetadata {
    type V = StorageVolumeMetadataView;

    open spec fn deep_view(&self) -> StorageVolumeMetadataView {
        StorageVolumeMetadataView {
            volume_id: self.volume_id@,
            name: self.name@,
            description: self.description.deep_view(),
            created_at: self.created_at,
            size_bytes: self.size_bytes,
            file_count: self.file_count,
            attached_to: self.attached_to.deep_view(),
            labels: self.labels.deep_view(),
        }
    }
}

impl Duplicate for StorageVolumeMetadata {
    fn duplicate(&self) -> (r: Self) {
        StorageVolumeMetadata {
            volume_id: self.volume_id.duplicate(),
            name: self.name.duplicate(),
            description: self.description.duplicate(),
            created_at: self.created_at,
            size_bytes: self.size_bytes,
            file_count: self.file_count,
            attached_to: self.attached_to.duplicate(),
            labels: self.labels.duplicate(),
        }
    }
}

/// What is told about a volume.
#[derive(Debug, Clone)]
pub struct StorageVolumeInfo {
    pub volume_id: String,
    pub name: String,
    pub description: Option<String>,
    pub created_at: Timestamp,
    pub size_bytes: u64,
    pub file_count: u64,
    pub attached_to: Option<String>,
    pub path: String,
}

/// What a [`StorageVolumeInfo`] holds.
#[verifier::ext_equal]
pub struct StorageVolumeInfoView {
    pub volume_id: Seq<char>,
    pub name: Seq<char>,
    pub description: Option<Seq<char>>,
    pub created_at: Timestamp,
    pub size_bytes: u64,
    pub file_count: u64,
    pub attached_to: Option<Seq<char>>,
    pub path: Seq<char>,
}

impl DeepView for StorageVolumeInfo {
    type V = StorageVolumeInfoView;

    open spec fn deep_view(&self) -> StorageVolumeInfoView {
        StorageVolumeInfoView {
            volume_id: self.volume_id@,
            name: self.name@,
            description: self.description.deep_view(),
            created_at: self.created_at,
            size_bytes: self.size_bytes,
            file_count: self.file_count,
            attached_to: self.attached_to.deep_view(),
            path: self.path@,
        }
    }
}

impl Duplicate for StorageVolumeInfo {
    fn duplicate(&self) -> (r: Self) {
        StorageVolumeInfo {
            volume_id: self.volume_id.duplicate(),
            name: self.name.duplicate(),
            description: self.description.duplicate(),
            created_at: self.created_at,
            size_bytes: self.size_bytes,
            file_count: self.file_count,
            attached_to: self.attached_to.duplicate(),
            path: self.path.duplicate(),
        }
    }
}

/// The rank of an instant among instants of which the latest comes first.
pub open spec fn newest_first(t: Timestamp) -> int {
    -(t.secs * 0x1_0000_0000 + t.nanos)
}

impl Ranked for StorageVolumeInfo {
    open spec fn rank(v: StorageVolumeInfoView) -> int {
        newest_first(v.created_at)
    }

    fn ranks_before(&self, other: &Self) -> (r: bool) {
        self.created_at.is_after(other.created_at)
    }
}

/// The rank of a volume in a list of volumes.
pub open spec fn by_newest() -> spec_fn(StorageVolumeInfoView) -> int {
    |v: StorageVolumeInfoView| newest_first(v.created_at)
}

/// What is told about a volume, given its record and where it is.
pub open spec fn volume_info(metadata: StorageVolumeMetadataView, path: Seq<char>) -> StorageVolumeInfoView {
    StorageVolumeInfoView {
        volume_id: metadata.volume_id,
        name: metadata.name,
        description: metadata.description,
        created_at: metadata.created_at,
        size_bytes: metadata.size_bytes,
        file_count: metadata.file_count,
        attached_to: metadata.attached_to,
        path,
    }
}

fn info_of(metadata: StorageVolumeMetadata, path: String) -> (r: StorageVolumeInfo)
    ensures
        r.deep_view() == volume_info(metadata.deep_view(), path@),
{
    StorageVolumeInfo {
        volume_id: metadata.volume_id,
        name: metadata.name,
        description: metadata.description,
        created_at: metadata.created_at,
        size_bytes: metadata.size_bytes,
        file_count: metadata.file_count,
        attached_to: metadata.attached_to,
        path,
    }
}

/// The number that a text holds between white space, or none.
pub open spec fn count_or_zero(s: Seq<char>) -> nat {
    match parsed(trim_of(s), u64::MAX as nat) {
        Some(n) => n,
        None => 0,
    }
}

/// The number that the first word of a text is, or none.
pub open spec fn first_count_or_zero(s: Seq<char>) -> nat {
    match next_word(s) {
        Some((word, _)) => match parsed(word, u64::MAX as nat) {
            Some(n) => n,
            None => 0,
        },
        None => 0,
    }
}

/// The number of files that was counted, given what the counting command wrote.
pub fn counted_files(stdout: &Vec<u8>) -> (r: u64)
    ensures
        r == count_or_zero(lossy_text(stdout@)),
{
    let text = utf8_lossy(stdout.as_slice());
    number_in(text.as_str())
}

/// The number that a text holds between white space, or none.
pub fn number_in(text: &str) -> (r: u64)
    ensures
        r == count_or_zero(text@),
{
    let trimmed = trim(text);
    match parse_u64(trimmed.as_str()) {
        Some(n) => n,
        None => 0,
    }
}

/// The number that the first word of a text is, or none.
pub fn first_number_in(text: &str) -> (r: u64)
    ensures
        r == first_count_or_zero(text@),
{
    match split_word(text) {
        Some((word, _)) => match parse_u64(word.as_str()) {
            Some(n) => n,
            None => 0,
        },
        None => 0,
    }
}

/// The shell command that counts the files below a directory.
pub fn count_command(path: &str) -> (r: String)
    ensures
        r@ == "cd '"@ + path@ + "' && find . -type f 2>/dev/null | wc -l"@,
{
    cat3("cd '", path, "' && find . -type f 2>/dev/null | wc -l")
}

/// The manager of the volumes; they are under `volumes_path`.
#[derive(Debug, Clone)]
pub struct StorageVolumeManager {
    pub volumes_path: String,
}

/// What is said of a volume that is not there.
pub open spec fn no_volume(volume_id: Seq<char>) -> Seq<char> {
    "Volume "@ + volume_id + " not found"@
}

/// The directory of the volumes in a storage.
pub open spec fn volumes_dir(storage: Seq<char>) -> Seq<char> {
    storage + "/volumes"@
}

/// The directory of a volume.
pub open spec fn volume_dir(volumes: Seq<char>, volume_id: Seq<char>) -> Seq<char> {
    volumes + "/"@ + volume_id
}

/// The file with the record of a volume.
pub open spec fn record_path(volumes: Seq<char>, volume_id: Seq<char>) -> Seq<char> {
    volume_dir(volumes, volume_id) + "/volume_metadata.json"@
}

/// The record of a volume that is made.
pub open spec fn new_record(
    volume_id: Seq<char>,
    name: Seq<char>,
    description: Option<Seq<char>>,
    created_at: Timestamp,
    stats: (u64, u64),
    labels: Map<Seq<char>, Seq<char>>,
) -> StorageVolumeMetadataView {
    StorageVolumeMetadataView {
        volume_id,
        name,
        description,
        created_at,
        size_bytes: stats.0,
        file_count: stats.1,
        attached_to: None,
        labels,
    }
}

/// The labels of a volume that was copied from a container.
pub open spec fn clone_labels(container_uuid: Seq<char>) -> Map<Seq<char>, Seq<char>> {
    Map::<Seq<char>, Seq<char>>::empty().insert("cloned_from"@, container_uuid)
}

/// Where a volume is copied from and to.
#[derive(Debug, Clone)]
pub struct CopyPlan {
    pub source: String,
    pub volume_id: String,
    pub target: String,
}

/// The record of a volume that is made empty.
pub open spec fn empty_record(
    volume_id: Seq<char>,
    name: Seq<char>,
    description: Option<Seq<char>>,
    created_at: Timestamp,
    labels: Option<Map<Seq<char>, Seq<char>>>,
) -> StorageVolumeMetadataView {
    new_record(
        volume_id,
        name,
        description,
        created_at,
        (0, 0),
        match labels {
            Some(labels) => labels,
            None => Map::empty(),
        },
    )
}

/// Where a container's files are copied from and to, for a volume of the given name.
pub open spec fn copying(
    volumes: Seq<char>,
    container_uuid: Seq<char>,
    volume_id: Seq<char>,
) -> (Seq<char>, Seq<char>) {
    (volume_dir(volumes, container_uuid), volume_dir(volumes, volume_id))
}

/// What is shown of a volume where it is there.
pub open spec fn found_volume(
    volumes: Seq<char>,
    volume_id: Seq<char>,
    metadata: Option<StorageVolumeMetadataView>,
) -> Result<StorageVolumeInfoView, Seq<char>> {
    match metadata {
        Some(metadata) => Ok(volume_info(metadata, volume_dir(volumes, volume_id))),
        None => Err(no_volume(volume_id)),
    }
}

/// The record of a volume that was attached, where it is there.
pub open spec fn attached(
    volume_id: Seq<char>,
    metadata: Option<StorageVolumeMetadataView>,
    container: Option<Seq<char>>,
) -> Result<StorageVolumeMetadataView, Seq<char>> {
    match metadata {
        Some(metadata) => Ok(with_attachment(metadata, container)),
        None => Err(no_volume(volume_id)),
    }
}

/// The record of a volume that was measured, where it is there.
pub open spec fn measured(
    volume_id: Seq<char>,
    metadata: Option<StorageVolumeMetadataView>,
    stats: (u64, u64),
) -> Result<StorageVolumeMetadataView, Seq<char>> {
    match metadata {
        Some(metadata) => Ok(with_stats(metadata, stats)),
        None => Err(no_volume(volume_id)),
    }
}

/// The size of a volume and how many files it holds, given what was printed of each.
pub open spec fn printed_stats(size: Seq<char>, count: Seq<char>) -> (nat, nat) {
    (first_count_or_zero(size), count_or_zero(count))
}

impl StorageVolumeManager {
    /// A manager of the volumes under a directory.
    pub fn new(storage_path: &str) -> (r: Self)
        ensures
            r.volumes_path@ == volumes_dir(storage_path@),
    {
        StorageVolumeManager { volumes_path: cat2(storage_path, "/volumes") }
    }

    /// The directory of a volume.
    pub fn get_volume_path(&self, volume_id: &str) -> (r: String)
        ensures
            r@ == volume_dir(self.volumes_path@, volume_id@),
    {
        cat3(self.volumes_path.as_str(), "/", volume_id)
    }

    /// The file with the record of a volume. A directory is a volume where it has one.
    pub fn metadata_path(&self, volume_id: &str) -> (r: String)
        ensures
            r@ == record_path(self.volumes_path@, volume_id@),
    {
        cat2(self.get_volume_path(volume_id).as_str(), "/volume_metadata.json")
    }

    /// The record of a new, empty volume under a new random identifier.
    pub fn create_volume(
        &self,
        name: &str,
        description: Option<String>,
        labels: Option<Table<String>>,
    ) -> (r: StorageVolumeMetadata)
        ensures
            is_random_uuid(r.volume_id@),
            r.created_at.secs >= 0,
            r.deep_view() == empty_record(
                r.volume_id@,
                name@,
                description.deep_view(),
                r.created_at,
                labels.deep_view(),
            ),
    {
        let labels = match labels {
            Some(labels) => labels,
            None => Table::new(),
        };
        StorageVolumeMetadata {
            volume_id: random_uuid(),
            name: name.to_string(),
            description,
            created_at: utc_now(),
            size_bytes: 0,
            file_count: 0,
            attached_to: None,
            labels,
        }
    }

    /// What is told about a volume, given its record.
    pub fn info(&self, metadata: StorageVolumeMetadata) -> (r: StorageVolumeInfo)
        ensures
            r.deep_view() == volume_info(
                metadata.deep_view(),
                volume_dir(self.volumes_path@, metadata.volume_id@),
            ),
    {
        let path = self.get_volume_path(metadata.volume_id.as_str());
        info_of(metadata, path)
    }

    /// Where the data of a container is copied to when a volume is made of it, given whether it
    /// is there.
    pub fn create_from_container(&self, container_uuid: &str, present: bool) -> (r: Result<
        CopyPlan,
        String,
    >)
        ensures
            match r {
                Ok(plan) => {
                    &&& present
                    &&& is_random_uuid(plan.volume_id@)
                    &&& (plan.source@, plan.target@) == copying(
                        self.volumes_path@,
                        container_uuid@,
                        plan.volume_id@,
                    )
                },
                Err(e) => !present && e@ == "Source container volume not found: "@ + container_uuid@,
            },
    {
        if !present {
            return Err(cat2("Source container volume not found: ", container_uuid));
        }
        let volume_id = random_uuid();
        let target = self.get_volume_path(volume_id.as_str());
        Ok(CopyPlan { source: self.get_volume_path(container_uuid), volume_id, target })
    }

    /// Whether a copy succeeded, given what the command left behind.
    pub fn copied(success: bool, stderr: &Vec<u8>) -> (r: Result<(), String>)
        ensures
            match r {
                Ok(_) => success,
                Err(e) => !success && e@ == "Failed to copy volume: "@ + lossy_text(stderr@),
            },
    {
        if success {
            Ok(())
        } else {
            let text = utf8_lossy(stderr.as_slice());
            Err(cat2("Failed to copy volume: ", text.as_str()))
        }
    }

    /// The record of a volume that was copied from a container, given its size and how many
    /// files it has.
    pub fn clone_metadata(
        plan: CopyPlan,
        container_uuid: &str,
        name: &str,
        description: Option<String>,
        stats: (u64, u64),
    ) -> (r: StorageVolumeMetadata)
        ensures
            r.created_at.secs >= 0,
            r.deep_view() == new_record(
                plan.volume_id@,
                name@,
                description.deep_view(),
                r.created_at,
                stats,
                clone_labels(container_uuid@),
            ),
    {
        let mut labels: Table<String> = Table::new();
        labels.insert("cloned_from".to_string(), container_uuid.to_string());
        StorageVolumeMetadata {
            volume_id: plan.volume_id,
            name: name.to_string(),
            description,
            created_at: utc_now(),
            size_bytes: stats.0,
            file_count: stats.1,
            attached_to: None,
            labels,
        }
    }

    /// What is told about the volumes: the newest first. `found` holds the name of each directory
    /// that has a record, with the record.
    pub fn list_volumes(&self, found: Vec<(String, StorageVolumeMetadata)>) -> (r: Vec<
        StorageVolumeInfo,
    >)
        ensures
            stably_sorted(
                listed_infos(self.volumes_path@, found.deep_view()),
                r.deep_view(),
                by_newest(),
            ),
    {
        let ghost all = found.deep_view();
        let mut infos: Vec<StorageVolumeInfo> = Vec::new();
        for entry in it: found
            invariant
                it.seq() == found@,
                all == found.deep_view(),
                infos.len() == it.index(),
                forall|k: int|
                    0 <= k < infos.len() ==> (#[trigger] infos@[k]).deep_view() == listed_infos(
                        self.volumes_path@,
                        all,
                    )[k],
        {
            let (name, metadata) = entry;
            assert(all[it.index() as int] == (name@, metadata.deep_view()));
            let path = self.get_volume_path(name.as_str());
            infos.push(info_of(metadata, path));
        }
        assert(infos.deep_view() =~= listed_infos(self.volumes_path@, all));
        let r = sort_by_rank(infos);
        assert((|x: StorageVolumeInfoView| StorageVolumeInfo::rank(x)) =~= by_newest());
        r
    }

    /// What is told about one volume, given its record where it has one.
    pub fn get_volume(&self, volume_id: &str, metadata: Option<StorageVolumeMetadata>) -> (r: Result<
        StorageVolumeInfo,
        String,
    >)
        ensures
            result_view(r) == found_volume(self.volumes_path@, volume_id@, metadata.deep_view()),
    {
        match metadata {
            Some(metadata) => Ok(info_of(metadata, self.get_volume_path(volume_id))),
            None => Err(cat3("Volume ", volume_id, " not found")),
        }
    }

    /// The directory to delete, or why a volume may not be deleted: it is not there, or a
    /// container has it.
    pub fn delete_volume(&self, volume_id: &str, metadata: &Option<StorageVolumeMetadata>) -> (r:
        Result<String, String>)
        ensures
            result_view(r) == deletion(
                self.volumes_path@,
                volume_id@,
                metadata.deep_view(),
            ),
    {
        match metadata {
            None => Err(cat3("Volume ", volume_id, " not found")),
            Some(metadata) => match &metadata.attached_to {
                Some(container) => Err(
                    cat4("Volume ", volume_id, " is attached to container ", container.as_str()),
                ),
                None => Ok(self.get_volume_path(volume_id)),
            },
        }
    }

    /// The record of a volume that a container has, or that none has any more.
    pub fn set_attached(
        volume_id: &str,
        metadata: Option<StorageVolumeMetadata>,
        container_uuid: Option<String>,
    ) -> (r: Result<StorageVolumeMetadata, String>)
        ensures
            result_view(r) == attached(volume_id@, metadata.deep_view(), container_uuid.deep_view()),
    {
        match metadata {
            None => Err(cat3("Volume ", volume_id, " not found")),
            Some(metadata) => {
                let mut updated = metadata;
                updated.attached_to = container_uuid;
                Ok(updated)
            },
        }
    }

    /// The record of a volume with another size and number of files.
    pub fn update_stats(
        volume_id: &str,
        metadata: Option<StorageVolumeMetadata>,
        stats: (u64, u64),
    ) -> (r: Result<StorageVolumeMetadata, String>)
        ensures
            result_view(r) == measured(volume_id@, metadata.deep_view(), stats),
    {
        match metadata {
            None => Err(cat3("Volume ", volume_id, " not found")),
            Some(metadata) => {
                let mut updated = metadata;
                updated.size_bytes = stats.0;
                updated.file_count = stats.1;
                Ok(updated)
            },
        }
    }

    /// The size of a volume and how many files it has, given what the commands that measure and
    /// count wrote.
    pub fn calculate_volume_stats(size_stdout: &Vec<u8>, count_stdout: &Vec<u8>) -> (r: (u64, u64))
        ensures
            (r.0 as nat, r.1 as nat) == printed_stats(
                lossy_text(size_stdout@),
                lossy_text(count_stdout@),
            ),
    {
        let size_text = utf8_lossy(size_stdout.as_slice());
        (first_number_in(size_text.as_str()), counted_files(count_stdout))
    }
}

/// What is told about volumes, in the order in which they were found.
pub open spec fn listed_infos(
    volumes: Seq<char>,
    found: Seq<(Seq<char>, StorageVolumeMetadataView)>,
) -> Seq<StorageVolumeInfoView> {
    Seq::new(found.len(), |i: int| volume_info(found[i].1, volume_dir(volumes, found[i].0)))
}

/// The directory to delete, or why a volume may not be deleted.
pub open spec fn deletion(
    volumes: Seq<char>,
    volume_id: Seq<char>,
    metadata: Option<StorageVolumeMetadataView>,
) -> Result<Seq<char>, Seq<char>> {
    match metadata {
        None => Err(no_volume(volume_id)),
        Some(metadata) => match metadata.attached_to {
            Some(container) => Err(
                "Volume "@ + volume_id + " is attached to container "@ + container,
            ),
            None => Ok(volume_dir(volumes, volume_id)),
        },
    }
}

/// A record with another attachment.
pub open spec fn with_attachment(
    metadata: StorageVolumeMetadataView,
    container: Option<Seq<char>>,
) -> StorageVolumeMetadataView {
    StorageVolumeMetadataView { attached_to: container, ..metadata }
}

/// A record with another size and number of files.
pub open spec fn with_stats(
    metadata: StorageVolumeMetadataView,
    stats: (u64, u64),
) -> StorageVolumeMetadataView {
    StorageVolumeMetadataView { size_bytes: stats.0, file_count: stats.1, ..metadata }
}

/// A volume that a container has cannot be deleted; once it has none, it can. Attaching and
/// measuring change nothing else.
pub proof fn law_attached_is_kept(
    volumes: Seq<char>,
    volume_id: Seq<char>,
    metadata: StorageVolumeMetadataView,
    container: Seq<char>,
    stats: (u64, u64),
)
    ensures
        deletion(volumes, volume_id, Some(with_attachment(metadata, Some(container)))) is Err,
        deletion(
            volumes,
            volume_id,
            Some(with_stats(with_attachment(metadata, Some(container)), stats)),
        ) is Err,
        deletion(volumes, volume_id, Some(with_attachment(metadata, None))) is Ok,
        with_attachment(with_attachment(metadata, Some(container)), metadata.attached_to)
            == metadata,
        with_stats(metadata, stats).attached_to == metadata.attached_to,
{
}

/// A list of volumes holds each volume that was found, and no volume stands behind an older one.
pub proof fn law_list_is_newest_first(
    volumes: Seq<char>,
    found: Seq<(Seq<char>, StorageVolumeMetadataView)>,
    out: Seq<StorageVolumeInfoView>,
    i: int,
    j: int,
)
    requires
        stably_sorted(listed_infos(volumes, found), out, by_newest()),
        0 <= i < j < out.len(),
    ensures
        !out[j].created_at.after(out[i].created_at),
        listed_infos(volumes, found).contains(out[i]),
        out.len() == found.len(),
{
    assert(by_newest()(out[i]) <= by_newest()(out[j]));
    law_sorting_keeps_values(listed_infos(volumes, found), out, by_newest(), out[i]);
}

/// What is shown of a volume is its record, and where its files are.
pub proof fn law_volume_info(metadata: StorageVolumeMetadataView, path: Seq<char>)
    ensures
        ({
            let info = volume_info(metadata, path);
            &&& info.volume_id == metadata.volume_id
            &&& info.name == metadata.name
            &&& info.description == metadata.description
            &&& info.created_at == metadata.created_at
            &&& info.size_bytes == metadata.size_bytes
            &&& info.file_count == metadata.file_count
            &&& info.attached_to == metadata.attached_to
            &&& info.path == path
        }),
{
}

/// A new volume is what was asked for, is as large as it was found to be, and belongs to no
/// container; one that is a copy says of which container.
pub proof fn law_new_volume(
    volume_id: Seq<char>,
    name: Seq<char>,
    description: Option<Seq<char>>,
    created_at: Timestamp,
    stats: (u64, u64),
    labels: Map<Seq<char>, Seq<char>>,
    container_uuid: Seq<char>,
    key: Seq<char>,
)
    ensures
        ({
            let record = new_record(volume_id, name, description, created_at, stats, labels);
            &&& record.volume_id == volume_id
            &&& record.name == name
            &&& record.description == description
            &&& record.created_at == created_at
            &&& record.size_bytes == stats.0
            &&& record.file_count == stats.1
            &&& record.attached_to is None
            &&& record.labels == labels
        }),
        clone_labels(container_uuid).contains_key(key) <==> key == "cloned_from"@,
        clone_labels(container_uuid)["cloned_from"@] == container_uuid,
{
}

/// A volume lies in a directory of its own, named after it, and its record in that directory.
pub proof fn law_volume_paths(storage: Seq<char>, a: Seq<char>, b: Seq<char>)
    ensures
        volumes_dir(storage) == storage + "/volumes"@,
        volume_dir(volumes_dir(storage), a) == storage + "/volumes"@ + "/"@ + a,
        record_path(volumes_dir(storage), a) == volume_dir(volumes_dir(storage), a)
            + "/volume_metadata.json"@,
        volume_dir(volumes_dir(storage), a) == volume_dir(volumes_dir(storage), b) <==> a == b,
{
    let before = (volumes_dir(storage) + "/"@).len() as int;
    assert(volume_dir(volumes_dir(storage), a).skip(before) =~= a);
    assert(volume_dir(volumes_dir(storage), b).skip(before) =~= b);
}

/// A volume is deleted, with its directory, exactly where it is there and belongs to no
/// container; else the error says which of the two it is.
pub proof fn law_deletion(
    volumes: Seq<char>,
    volume_id: Seq<char>,
    metadata: StorageVolumeMetadataView,
)
    ensures
        deletion(volumes, volume_id, None) == Err::<Seq<char>, Seq<char>>(
            "Volume "@ + volume_id + " not found"@,
        ),
        metadata.attached_to is None ==> deletion(volumes, volume_id, Some(metadata)) == Ok::<
            Seq<char>,
            Seq<char>,
        >(volumes + "/"@ + volume_id),
        metadata.attached_to matches Some(container) ==> deletion(
            volumes,
            volume_id,
            Some(metadata),
        ) == Err::<Seq<char>, Seq<char>>(
            "Volume "@ + volume_id + " is attached to container "@ + container,
        ),
{
}

/// To attach a volume, or to measure it, changes that alone in its record.
pub proof fn law_volume_changes(
    metadata: StorageVolumeMetadataView,
    container: Option<Seq<char>>,
    stats: (u64, u64),
)
    ensures
        with_attachment(metadata, container).attached_to == container,
        with_attachment(with_attachment(metadata, container), metadata.attached_to) == metadata,
        with_stats(metadata, stats).size_bytes == stats.0,
        with_stats(metadata, stats).file_count == stats.1,
        with_stats(with_stats(metadata, stats), (metadata.size_bytes, metadata.file_count))
            == metadata,
{
}

/// Every record that was found is listed, with its own directory, and nothing else is.
pub proof fn law_listed_volumes(
    volumes: Seq<char>,
    found: Seq<(Seq<char>, StorageVolumeMetadataView)>,
    i: int,
)
    ensures
        listed_infos(volumes, found).len() == found.len(),
        0 <= i < found.len() ==> {
            let info = listed_infos(volumes, found)[i];
            &&& info.volume_id == found[i].1.volume_id
            &&& info.name == found[i].1.name
            &&& info.attached_to == found[i].1.attached_to
            &&& info.created_at == found[i].1.created_at
            &&& info.path == volumes + "/"@ + found[i].0
        },
{
}

/// A later time comes before an earlier one.
pub proof fn law_newest_first(a: Timestamp, b: Timestamp)
    requires
        a.nanos < 0x1_0000_0000,
        b.nanos < 0x1_0000_0000,
    ensures
        newest_first(a) < newest_first(b) <==> a.after(b),
        newest_first(a) == newest_first(b) <==> a.secs == b.secs && a.nanos == b.nanos,
        a.after(b) <==> a.secs > b.secs || (a.secs == b.secs && a.nanos > b.nanos),
{
}

/// A count is read from a text that is a number but for white space around it, or from the first
/// word of one, and is zero where no number stands there.
pub proof fn law_counts(n: u64, s: Seq<char>, rest: Seq<char>)
    requires
        rest.len() > 0 ==> is_white(rest[0]),
    ensures
        trim_of(s) == decimal(n as nat) ==> count_or_zero(s) == n,
        parsed(trim_of(s), u64::MAX as nat) is None ==> count_or_zero(s) == 0,
        first_count_or_zero(decimal(n as nat) + rest) == n,
        first_count_or_zero(Seq::empty()) == 0,
{
    law_number_reads_back(n as nat, u64::MAX as nat);
    let word = decimal(n as nat);
    assert forall|i: int| 0 <= i < word.len() implies !is_white(#[trigger] word[i]) by {
        law_only_digits_are_read(word, u64::MAX as nat, i);
    }
    law_next_word(Seq::empty(), word, rest);
    assert(Seq::<char>::empty() + word + rest =~= word + rest);
    law_next_word(Seq::empty(), Seq::empty(), Seq::empty());
}

/// A volume that is there is shown, attached and measured as its own record; of one that is not
/// there, that is said.
pub proof fn law_volume_operations(
    volumes: Seq<char>,
    volume_id: Seq<char>,
    metadata: StorageVolumeMetadataView,
    container: Option<Seq<char>>,
    stats: (u64, u64),
)
    ensures
        found_volume(volumes, volume_id, Some(metadata)) matches Ok(info) && {
            &&& info.volume_id == metadata.volume_id
            &&& info.name == metadata.name
            &&& info.attached_to == metadata.attached_to
            &&& info.size_bytes == metadata.size_bytes
            &&& info.file_count == metadata.file_count
            &&& info.path == volumes + "/"@ + volume_id
        },
        attached(volume_id, Some(metadata), container) matches Ok(after) && {
            &&& after.attached_to == container
            &&& (StorageVolumeMetadataView { attached_to: metadata.attached_to, ..after })
                == metadata
        },
        measured(volume_id, Some(metadata), stats) matches Ok(after) && {
            &&& after.size_bytes == stats.0
            &&& after.file_count == stats.1
            &&& (StorageVolumeMetadataView {
                size_bytes: metadata.size_bytes,
                file_count: metadata.file_count,
                ..after
            }) == metadata
        },
        found_volume(volumes, volume_id, None) == Err::<StorageVolumeInfoView, Seq<char>>(
            "Volume "@ + volume_id + " not found"@,
        ),
        attached(volume_id, None, container) == Err::<StorageVolumeMetadataView, Seq<char>>(
            "Volume "@ + volume_id + " not found"@,
        ),
        measured(volume_id, None, stats) == Err::<StorageVolumeMetadataView, Seq<char>>(
            "Volume "@ + volume_id + " not found"@,
        ),
{
}

/// The size of a volume is the number before its name, and its files are counted by the number
/// that stands alone.
pub proof fn law_printed_stats(size: u64, files: u64, path: Seq<char>, count: Seq<char>)
    requires
        path.len() > 0 ==> is_white(path[0]),
        trim_of(count) == decimal(files as nat),
    ensures
        printed_stats(decimal(size as nat) + path, count) == (size as nat, files as nat),
{
    law_counts(size, count, path);
    law_counts(files, count, path);
}

/// A volume that is made empty is of no size, holds no files, belongs to no container and has the
/// labels that were given; a copy is made from the container's own directory into that of the
/// volume.
pub proof fn law_made_volumes(
    volume_id: Seq<char>,
    name: Seq<char>,
    description: Option<Seq<char>>,
    created_at: Timestamp,
    labels: Option<Map<Seq<char>, Seq<char>>>,
    volumes: Seq<char>,
    container_uuid: Seq<char>,
)
    ensures
        ({
            let record = empty_record(volume_id, name, description, created_at, labels);
            &&& record.volume_id == volume_id
            &&& record.name == name
            &&& record.description == description
            &&& record.created_at == created_at
            &&& record.size_bytes == 0
            &&& record.file_count == 0
            &&& record.attached_to is None
            &&& labels matches Some(given) ==> record.labels == given
            &&& labels is None ==> record.labels == Map::<Seq<char>, Seq<char>>::empty()
        }),
        copying(volumes, container_uuid, volume_id).0 == volumes + "/"@ + container_uuid,
        copying(volumes, container_uuid, volume_id).1 == volumes + "/"@ + volume_id,
{
}

} // verus!
