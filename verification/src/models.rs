//! Requests, replies and records of the daemon.

use crate::docker::network::{PortAllocation, PortAllocationView};
use crate::duplicate::Duplicate;
use crate::table::Table;
use vstd::prelude::*;

verus! {

/// An instant: whole seconds since the Unix epoch and the nanoseconds behind them.
#[derive(Debug, Clone, Copy, PartialEq, Eq, Structural)]
pub struct Timestamp {
    pub secs: i64,
    pub nanos: u32,
}

impl DeepView for Timestamp {
    type V = Timestamp;

    open spec fn deep_view(&self) -> Timestamp {
        *self
    }
}

impl Timestamp {
    /// Whether `self` is later than `other`.
    pub open spec fn after(self, other: Timestamp) -> bool {
        self.secs > other.secs || (self.secs == other.secs && self.nanos > other.nanos)
    }

    /// Whether `self` is later than `other`.
    pub fn is_after(self, other: Timestamp) -> (r: bool)
        ensures
            r == self.after(other),
    {
        self.secs > other.secs || (self.secs == other.secs && self.nanos > other.nanos)
    }
}

/// Limits on what a container may use.
#[derive(Debug, Clone)]
pub struct ResourceLimits {
    /// Share of processors, such as "2.0" or "0.5".
    pub cpu: Option<String>,
    /// Memory, such as "2g" or "512m".
    pub memory: Option<String>,
    /// Disk space, such as "10g".
    pub disk: Option<String>,
    /// Swap space, such as "1g".
    pub swap: Option<String>,
    /// Largest number of processes.
    pub pids: Option<u64>,
    /// Largest number of threads.
    pub threads: Option<u64>,
}

/// What a [`ResourceLimits`] holds.
#[verifier::ext_equal]
pub struct ResourceLimitsView {
    pub cpu: Option<Seq<char>>,
    pub memory: Option<Seq<char>>,
    pub disk: Option<Seq<char>>,
    pub swap: Option<Seq<char>>,
    pub pids: Option<u64>,
    pub threads: Option<u64>,
}

impl DeepView for ResourceLimits {
    type V = ResourceLimitsView;

    open spec fn deep_view(&self) -> ResourceLimitsView {
        ResourceLimitsView {
            cpu: self.cpu.deep_view(),
            memory: self.memory.deep_view(),
            disk: self.disk.deep_view(),
            swap: self.swap.deep_view(),
            pids: self.pids.deep_view(),
            threads: self.threads.deep_view(),
        }
    }
}

impl Duplicate for ResourceLimits {
    fn duplicate(&self) -> (r: Self) {
        ResourceLimits {
            cpu: self.cpu.duplicate(),
            memory: self.memory.duplicate(),
            disk: self.disk.duplicate(),
            swap: self.swap.duplicate(),
            pids: self.pids,
            threads: self.threads,
        }
    }
}

/// The limits of a container for which none were asked.
pub open spec fn no_limits() -> ResourceLimitsView {
    ResourceLimitsView {
        cpu: None,
        memory: None,
        disk: None,
        swap: None,
        pids: None,
        threads: None,
    }
}

impl Default for ResourceLimits {
    fn default() -> (r: Self)
        ensures
            r.deep_view() == no_limits(),
    {
        ResourceLimits { cpu: None, memory: None, disk: None, swap: None, pids: None, threads: None }
    }
}

/// How the server in a container announces that it runs, and how it is asked to stop.
#[derive(Debug, Clone)]
pub struct RuntimeConfig {
    /// What the log holds once the server has started.
    pub start_up: String,
    /// The command that asks the server to stop.
    pub stop: String,
}

/// What a [`RuntimeConfig`] holds.
#[verifier::ext_equal]
pub struct RuntimeConfigView {
    pub start_up: Seq<char>,
    pub stop: Seq<char>,
}

impl DeepView for RuntimeConfig {
    type V = RuntimeConfigView;

    open spec fn deep_view(&self) -> RuntimeConfigView {
        RuntimeConfigView {
            start_up: self.start_up@,
            stop: self.stop@,
        }
    }
}

impl Duplicate for RuntimeConfig {
    fn duplicate(&self) -> (r: Self) {
        RuntimeConfig {
            start_up: self.start_up.duplicate(),
            stop: self.stop.duplicate(),
        }
    }
}

impl Default for RuntimeConfig {
    fn default() -> (r: Self)
        ensures
            r.start_up@.len() == 0,
            r.stop@.len() == 0,
    {
        RuntimeConfig { start_up: String::new(), stop: String::new() }
    }
}

/// A directory of the host that a container sees.
#[derive(Debug, Clone)]
pub struct VolumeMount {
    pub source: String,
    pub target: String,
    pub read_only: Option<bool>,
}

/// What a [`VolumeMount`] holds.
#[verifier::ext_equal]
pub struct VolumeMountView {
    pub source: Seq<char>,
    pub target: Seq<char>,
    pub read_only: Option<bool>,
}

impl DeepView for VolumeMount {
    type V = VolumeMountView;

    open spec fn deep_view(&self) -> VolumeMountView {
        VolumeMountView {
            source: self.source@,
            target: self.target@,
            read_only: self.read_only.deep_view(),
        }
    }
}

impl Duplicate for VolumeMount {
    fn duplicate(&self) -> (r: Self) {
        VolumeMount {
            source: self.source.duplicate(),
            target: self.target.duplicate(),
            read_only: self.read_only,
        }
    }
}

/// Everything that a new container is made from.
#[derive(Debug, Clone)]
pub struct CreateContainerRequest {
    pub image: String,
    pub name: Option<String>,
    pub description: Option<String>,
    pub startup_command: Option<Vec<String>>,
    pub env: Option<Table<String>>,
    /// Host port, or "auto", for each container port.
    pub ports: Option<Table<String>>,
    pub volumes: Option<Vec<VolumeMount>>,
    pub command: Option<Vec<String>>,
    pub working_dir: Option<String>,
    pub restart_policy: Option<String>,
    pub custom_uuid: Option<String>,
    pub limits: Option<ResourceLimits>,
    /// Script that runs once, before the first start; it is not kept.
    pub install_content: Option<String>,
    pub runtime: Option<RuntimeConfig>,
    /// The name that the panel gave to a long-running operation.
    pub request_id: Option<String>,
}

/// What a [`CreateContainerRequest`] holds.
#[verifier::ext_equal]
pub struct CreateContainerRequestView {
    pub image: Seq<char>,
    pub name: Option<Seq<char>>,
    pub description: Option<Seq<char>>,
    pub startup_command: Option<Seq<Seq<char>>>,
    pub env: Option<Map<Seq<char>, Seq<char>>>,
    pub ports: Option<Map<Seq<char>, Seq<char>>>,
    pub volumes: Option<Seq<VolumeMountView>>,
    pub command: Option<Seq<Seq<char>>>,
    pub working_dir: Option<Seq<char>>,
    pub restart_policy: Option<Seq<char>>,
    pub custom_uuid: Option<Seq<char>>,
    pub limits: Option<ResourceLimitsView>,
    pub install_content: Option<Seq<char>>,
    pub runtime: Option<RuntimeConfigView>,
    pub request_id: Option<Seq<char>>,
}

impl DeepView for CreateContainerRequest {
    type V = CreateContainerRequestView;

    open spec fn deep_view(&self) -> CreateContainerRequestView {
        CreateContainerRequestView {
            image: self.image@,
            name: self.name.deep_view(),
            description: self.description.deep_view(),
            startup_command: self.startup_command.deep_view(),
            env: self.env.deep_view(),
            ports: self.ports.deep_view(),
            volumes: self.volumes.deep_view(),
            command: self.command.deep_view(),
            working_dir: self.working_dir.deep_view(),
            restart_policy: self.restart_policy.deep_view(),
            custom_uuid: self.custom_uuid.deep_view(),
            limits: self.limits.deep_view(),
            install_content: self.install_content.deep_view(),
            runtime: self.runtime.deep_view(),
            request_id: self.request_id.deep_view(),
        }
    }
}

impl Duplicate for CreateContainerRequest {
    fn duplicate(&self) -> (r: Self) {
        CreateContainerRequest {
            image: self.image.duplicate(),
            name: self.name.duplicate(),
            description: self.description.duplicate(),
            startup_command: self.startup_command.duplicate(),
            env: self.env.duplicate(),
            ports: self.ports.duplicate(),
            volumes: self.volumes.duplicate(),
            command: self.command.duplicate(),
            working_dir: self.working_dir.duplicate(),
            restart_policy: self.restart_policy.duplicate(),
            custom_uuid: self.custom_uuid.duplicate(),
            limits: self.limits.duplicate(),
            install_content: self.install_content.duplicate(),
            runtime: self.runtime.duplicate(),
            request_id: self.request_id.duplicate(),
        }
    }
}

/// What the daemon keeps about a container on disk.
#[derive(Debug, Clone)]
pub struct ContainerTracker {
    pub custom_uuid: String,
    pub container_id: String,
    pub name: String,
    pub image: String,
    pub description: Option<String>,
    pub startup_command: Option<Vec<String>>,
    pub created_at: Timestamp,
    pub limits: ResourceLimits,
    pub allocated_ports: Vec<PortAllocation>,
    pub attached_volumes: Vec<VolumeMount>,
    pub ports: Table<String>,
    pub env: Option<Table<String>>,
    pub status: String,
    pub runtime: Option<RuntimeConfig>,
}

/// What a [`ContainerTracker`] holds.
#[verifier::ext_equal]
pub struct ContainerTrackerView {
    pub custom_uuid: Seq<char>,
    pub container_id: Seq<char>,
    pub name: Seq<char>,
    pub image: Seq<char>,
    pub description: Option<Seq<char>>,
    pub startup_command: Option<Seq<Seq<char>>>,
    pub created_at: Timestamp,
    pub limits: ResourceLimitsView,
    pub allocated_ports: Seq<PortAllocationView>,
    pub attached_volumes: Seq<VolumeMountView>,
    pub ports: Map<Seq<char>, Seq<char>>,
    pub env: Option<Map<Seq<char>, Seq<char>>>,
    pub status: Seq<char>,
    pub runtime: Option<RuntimeConfigView>,
}

impl DeepView for ContainerTracker {
    type V = ContainerTrackerView;

    open spec fn deep_view(&self) -> ContainerTrackerView {
        ContainerTrackerView {
            custom_uuid: self.custom_uuid@,
            container_id: self.container_id@,
            name: self.name@,
            image: self.image@,
            description: self.description.deep_view(),
            startup_command: self.startup_command.deep_view(),
            created_at: self.created_at,
            limits: self.limits.deep_view(),
            allocated_ports: self.allocated_ports.deep_view(),
            attached_volumes: self.attached_volumes.deep_view(),
            ports: self.ports.deep_view(),
            env: self.env.deep_view(),
            status: self.status@,
            runtime: self.runtime.deep_view(),
        }
    }
}

impl Duplicate for ContainerTracker {
    fn duplicate(&self) -> (r: Self) {
        ContainerTracker {
            custom_uuid: self.custom_uuid.duplicate(),
            container_id: self.container_id.duplicate(),
            name: self.name.duplicate(),
            image: self.image.duplicate(),
            description: self.description.duplicate(),
            startup_command: self.startup_command.duplicate(),
            created_at: self.created_at,
            limits: self.limits.duplicate(),
            allocated_ports: self.allocated_ports.duplicate(),
            attached_volumes: self.attached_volumes.duplicate(),
            ports: self.ports.duplicate(),
            env: self.env.duplicate(),
            status: self.status.duplicate(),
            runtime: self.runtime.duplicate(),
        }
    }
}

/// A port of a container and where it is bound.
#[derive(Debug, Clone)]
pub struct PortConfig {
    pub container_port: String,
    /// "auto", or a port of the host.
    pub host_port: Option<String>,
    /// The address to bind to; all of them where none is given.
    pub host_ip: Option<String>,
    /// "tcp" or "udp"; "tcp" where none is given.
    pub protocol: Option<String>,
}

/// A port that a running container has open.
#[derive(Debug, Clone)]
pub struct PortMapping {
    pub private_port: u16,
    pub public_port: Option<u16>,
    pub host_ip: Option<String>,
    pub protocol: String,
}

/// One container in the list of containers.
#[derive(Debug, Clone)]
pub struct ContainerInfo {
    pub id: String,
    pub name: String,
    pub image: String,
    pub state: String,
    pub status: String,
    pub created: String,
    pub ports: Vec<PortMapping>,
}

/// A request for a volume of the container engine.
#[derive(Debug, Clone)]
pub struct CreateVolumeRequest {
    pub name: String,
    pub driver: Option<String>,
    pub driver_opts: Option<Table<String>>,
    pub labels: Option<Table<String>>,
}

/// A volume of the container engine.
#[derive(Debug, Clone)]
pub struct VolumeInfo {
    pub name: String,
    pub driver: String,
    pub mountpoint: String,
    pub created_at: String,
    pub labels: Table<String>,
}

/// A request to suspend a container.
#[derive(Debug, Clone)]
pub struct SuspendRequest {
    pub message: Option<String>,
}

/// A request to end the suspension of a container.
#[derive(Debug, Clone)]
pub struct UnsuspendRequest {
    pub message: Option<String>,
}

/// The reply to a request: data where it succeeded, a message where it did not.
#[derive(Debug, Clone)]
pub struct ApiResponse<T> {
    pub success: bool,
    pub data: Option<T>,
    pub message: Option<String>,
}

/// What an [`ApiResponse`] holds.
#[verifier::ext_equal]
pub struct ApiResponseView<T> {
    pub success: bool,
    pub data: Option<T>,
    pub message: Option<Seq<char>>,
}

impl<T: DeepView> DeepView for ApiResponse<T> {
    type V = ApiResponseView<T::V>;

    open spec fn deep_view(&self) -> ApiResponseView<T::V> {
        ApiResponseView {
            success: self.success,
            data: self.data.deep_view(),
            message: self.message.deep_view(),
        }
    }
}

/// The reply that carries `data`.
pub open spec fn success_reply<T>(data: T) -> ApiResponseView<T> {
    ApiResponseView { success: true, data: Some(data), message: None }
}

/// The reply that says what went wrong.
pub open spec fn error_reply<T>(message: Seq<char>) -> ApiResponseView<T> {
    ApiResponseView { success: false, data: None, message: Some(message) }
}

impl<T> ApiResponse<T> {
    /// The reply that carries `data`.
    pub fn success(data: T) -> (r: Self)
        ensures
            r.success,
            r.data == Some(data),
            r.message is None,
    {
        ApiResponse { success: true, data: Some(data), message: None }
    }

    /// The reply that says what went wrong.
    pub fn error(message: String) -> (r: Self)
        ensures
            !r.success,
            r.data is None,
            r.message == Some(message),
    {
        ApiResponse { success: false, data: None, message: Some(message) }
    }
}

/// A command to run in a container.
#[derive(Debug, Clone)]
pub struct ExecRequest {
    pub command: Vec<String>,
}

/// Which part of the log of a container is asked for.
#[derive(Debug, Clone)]
pub struct LogsRequest {
    pub follow: Option<bool>,
    pub tail: Option<String>,
}

/// The shell session that was opened in a container.
#[derive(Debug, Clone)]
pub struct AttachResponse {
    pub exec_id: String,
    pub container_id: String,
    pub status: String,
}

/// What a [`AttachResponse`] holds.
#[verifier::ext_equal]
pub struct AttachResponseView {
    pub exec_id: Seq<char>,
    pub container_id: Seq<char>,
    pub status: Seq<char>,
}

impl DeepView for AttachResponse {
    type V = AttachResponseView;

    open spec fn deep_view(&self) -> AttachResponseView {
        AttachResponseView {
            exec_id: self.exec_id@,
            container_id: self.container_id@,
            status: self.status@,
        }
    }
}

/// A script to run in a container, and what to change with it.
#[derive(Debug, Clone)]
pub struct UpdateContainerRequest {
    pub update_content: String,
    pub image: Option<String>,
    pub startup_command: Option<Vec<String>>,
    pub request_id: Option<String>,
}

/// What a [`UpdateContainerRequest`] holds.
#[verifier::ext_equal]
pub struct UpdateContainerRequestView {
    pub update_content: Seq<char>,
    pub image: Option<Seq<char>>,
    pub startup_command: Option<Seq<Seq<char>>>,
    pub request_id: Option<Seq<char>>,
}

impl DeepView for UpdateContainerRequest {
    type V = UpdateContainerRequestView;

    open spec fn deep_view(&self) -> UpdateContainerRequestView {
        UpdateContainerRequestView {
            update_content: self.update_content@,
            image: self.image.deep_view(),
            startup_command: self.startup_command.deep_view(),
            request_id: self.request_id.deep_view(),
        }
    }
}

/// New limits for a container.
#[derive(Debug, Clone)]
pub struct UpdateLimitsRequest {
    pub limits: ResourceLimits,
    /// Whether to restart the container; it is not by default.
    pub restart_container: Option<bool>,
}

/// How far the installation of a container has come.
#[derive(Debug, Clone)]
pub struct InstallationStatus {
    pub status: String,
    pub progress: Option<String>,
    pub logs: Option<String>,
    /// The present container; a new installation changes it.
    pub container_id: Option<String>,
}

/// What a [`InstallationStatus`] holds.
#[verifier::ext_equal]
pub struct InstallationStatusView {
    pub status: Seq<char>,
    pub progress: Option<Seq<char>>,
    pub logs: Option<Seq<char>>,
    pub container_id: Option<Seq<char>>,
}

impl DeepView for InstallationStatus {
    type V = InstallationStatusView;

    open spec fn deep_view(&self) -> InstallationStatusView {
        InstallationStatusView {
            status: self.status@,
            progress: self.progress.deep_view(),
            logs: self.logs.deep_view(),
            container_id: self.container_id.deep_view(),
        }
    }
}

/// The directory to list; the root where none is given.
#[derive(Debug, Clone)]
pub struct FileSystemRequest {
    pub path: Option<String>,
}

/// A file and what to write to it.
#[derive(Debug, Clone)]
pub struct WriteFileRequest {
    pub path: String,
    pub content: String,
}

/// A directory to make.
#[derive(Debug, Clone)]
pub struct CreateDirectoryRequest {
    pub path: String,
}

/// A file to delete.
#[derive(Debug, Clone)]
pub struct DeleteRequest {
    pub path: String,
}

/// A file and its new permissions, such as "755" or "u+x".
#[derive(Debug, Clone)]
pub struct ChmodRequest {
    pub path: String,
    pub permissions: String,
}

/// A file and its new owner.
#[derive(Debug, Clone)]
pub struct ChownRequest {
    pub path: String,
    pub owner: String,
    pub group: Option<String>,
}

/// Files to put into an archive.
#[derive(Debug, Clone)]
pub struct CreateArchiveRequest {
    pub source_paths: Vec<String>,
    pub archive_path: String,
    /// "gzip", "bzip2", "xz", or none.
    pub compression: Option<String>,
}

/// An archive to unpack.
#[derive(Debug, Clone)]
pub struct ExtractArchiveRequest {
    pub archive_path: String,
    pub destination_path: String,
}

/// Files to put into a zip archive.
#[derive(Debug, Clone)]
pub struct CreateZipRequest {
    pub source_paths: Vec<String>,
    pub zip_path: String,
}

/// A zip archive to unpack.
#[derive(Debug, Clone)]
pub struct ExtractZipRequest {
    pub zip_path: String,
    pub destination_path: String,
}

/// A file to copy or to move.
#[derive(Debug, Clone)]
pub struct CopyFileRequest {
    pub source_path: String,
    pub destination_path: String,
    /// Whether to move the file; it is copied by default.
    pub move_file: Option<bool>,
}

/// The container that a UUID stands for.
#[derive(Debug, Clone)]
pub struct ContainerLookupResponse {
    pub uuid: String,
    pub container_id: String,
    pub name: String,
    pub state: String,
    pub image: String,
    pub locked: Option<bool>,
    pub lock_reason: Option<String>,
}

/// What a [`ContainerLookupResponse`] holds.
#[verifier::ext_equal]
pub struct ContainerLookupResponseView {
    pub uuid: Seq<char>,
    pub container_id: Seq<char>,
    pub name: Seq<char>,
    pub state: Seq<char>,
    pub image: Seq<char>,
    pub locked: Option<bool>,
    pub lock_reason: Option<Seq<char>>,
}

impl DeepView for ContainerLookupResponse {
    type V = ContainerLookupResponseView;

    open spec fn deep_view(&self) -> ContainerLookupResponseView {
        ContainerLookupResponseView {
            uuid: self.uuid@,
            container_id: self.container_id@,
            name: self.name@,
            state: self.state@,
            image: self.image@,
            locked: self.locked.deep_view(),
            lock_reason: self.lock_reason.deep_view(),
        }
    }
}

/// A request for a token that opens a WebSocket.
#[derive(Debug, Clone)]
pub struct WebSocketTokenRequest {
    /// A UUID or the identifier of a container.
    pub container_id: String,
}

/// A token that opens a WebSocket.
#[derive(Debug, Clone)]
pub struct WebSocketTokenResponse {
    pub token: String,
    pub expires_at: Timestamp,
    pub container_id: String,
    pub container_uuid: String,
}

/// A message on a WebSocket.
#[derive(Debug, Clone)]
pub struct WebSocketMessage {
    pub event: String,
    pub args: Vec<String>,
}

/// Bytes that a container received and sent.
#[derive(Debug, Clone, Copy)]
pub struct NetworkStats {
    pub rx_bytes: u64,
    pub tx_bytes: u64,
}

/// New environment variables for a container.
#[derive(Debug, Clone)]
pub struct UpdateEnvRequest {
    pub env: Table<String>,
    pub request_id: Option<String>,
}

/// What to change in the configuration of a container.
#[derive(Debug, Clone)]
pub struct UpdateConfigRequest {
    pub env: Option<Table<String>>,
    pub limits: Option<ResourceLimits>,
    pub ports: Option<Table<String>>,
    pub image: Option<String>,
    pub startup_command: Option<Vec<String>>,
    pub request_id: Option<String>,
}

/// What a [`UpdateConfigRequest`] holds.
#[verifier::ext_equal]
pub struct UpdateConfigRequestView {
    pub env: Option<Map<Seq<char>, Seq<char>>>,
    pub limits: Option<ResourceLimitsView>,
    pub ports: Option<Map<Seq<char>, Seq<char>>>,
    pub image: Option<Seq<char>>,
    pub startup_command: Option<Seq<Seq<char>>>,
    pub request_id: Option<Seq<char>>,
}

impl DeepView for UpdateConfigRequest {
    type V = UpdateConfigRequestView;

    open spec fn deep_view(&self) -> UpdateConfigRequestView {
        UpdateConfigRequestView {
            env: self.env.deep_view(),
            limits: self.limits.deep_view(),
            ports: self.ports.deep_view(),
            image: self.image.deep_view(),
            startup_command: self.startup_command.deep_view(),
            request_id: self.request_id.deep_view(),
        }
    }
}

/// Everything that a container is installed anew from.
#[derive(Debug, Clone)]
pub struct ReinstallRequest {
    pub image: String,
    pub install_script: String,
    pub startup_command: Vec<String>,
    pub env: Option<Table<String>>,
    pub ports: Option<Table<String>>,
    pub limits: Option<ResourceLimits>,
    pub runtime: Option<RuntimeConfig>,
    pub request_id: Option<String>,
}

/// What a [`ReinstallRequest`] holds.
#[verifier::ext_equal]
pub struct ReinstallRequestView {
    pub image: Seq<char>,
    pub install_script: Seq<char>,
    pub startup_command: Seq<Seq<char>>,
    pub env: Option<Map<Seq<char>, Seq<char>>>,
    pub ports: Option<Map<Seq<char>, Seq<char>>>,
    pub limits: Option<ResourceLimitsView>,
    pub runtime: Option<RuntimeConfigView>,
    pub request_id: Option<Seq<char>>,
}

impl DeepView for ReinstallRequest {
    type V = ReinstallRequestView;

    open spec fn deep_view(&self) -> ReinstallRequestView {
        ReinstallRequestView {
            image: self.image@,
            install_script: self.install_script@,
            startup_command: self.startup_command.deep_view(),
            env: self.env.deep_view(),
            ports: self.ports.deep_view(),
            limits: self.limits.deep_view(),
            runtime: self.runtime.deep_view(),
            request_id: self.request_id.deep_view(),
        }
    }
}

/// The name that the panel gives to a long-running operation.
#[derive(Debug, Clone)]
pub struct OperationRequest {
    pub request_id: Option<String>,
}

/// A request to stop a container.
#[derive(Debug, Clone)]
pub struct StopRequest {
    pub runtime: Option<RuntimeConfig>,
}

/// A request to start a container.
#[derive(Debug, Clone)]
pub struct StartRequest {
    pub runtime: Option<RuntimeConfig>,
}
} // verus!
