//! What the daemon remembers about a container while it runs.

use crate::duplicate::Duplicate;
use crate::models::Timestamp;
use crate::table::Table;
use vstd::prelude::*;

verus! {

/// The present state of a container.
#[derive(Debug, Clone)]
pub struct ContainerState {
    pub state: String,
    /// The container of the engine; there is none before it is created.
    pub container_id: Option<String>,
    pub image: String,
    pub name: String,
    pub description: Option<String>,
    pub startup_command: Option<String>,
    pub disk_limit: Option<String>,
    pub memory_limit: Option<String>,
    pub cpu_limit: Option<String>,
    pub swap_limit: Option<String>,
    pub pids_limit: Option<u64>,
    pub threads_limit: Option<u64>,
    pub attached_volumes: Vec<String>,
    pub ports: Table<String>,
    pub env: Option<Table<String>>,
    pub created_at: Timestamp,
    pub updated_at: Timestamp,
    pub locked: Option<bool>,
    pub lock_reason: Option<String>,
    pub locked_at: Option<Timestamp>,
    pub restart_policy: Option<String>,
    pub operation: Option<String>,
    pub operation_id: Option<String>,
    pub operation_message: Option<String>,
}

/// What a [`ContainerState`] holds.
#[verifier::ext_equal]
pub struct ContainerStateView {
    pub state: Seq<char>,
    pub container_id: Option<Seq<char>>,
    pub image: Seq<char>,
    pub name: Seq<char>,
    pub description: Option<Seq<char>>,
    pub startup_command: Option<Seq<char>>,
    pub disk_limit: Option<Seq<char>>,
    pub memory_limit: Option<Seq<char>>,
    pub cpu_limit: Option<Seq<char>>,
    pub swap_limit: Option<Seq<char>>,
    pub pids_limit: Option<u64>,
    pub threads_limit: Option<u64>,
    pub attached_volumes: Seq<Seq<char>>,
    pub ports: Map<Seq<char>, Seq<char>>,
    pub env: Option<Map<Seq<char>, Seq<char>>>,
    pub created_at: Timestamp,
    pub updated_at: Timestamp,
    pub locked: Option<bool>,
    pub lock_reason: Option<Seq<char>>,
    pub locked_at: Option<Timestamp>,
    pub restart_policy: Option<Seq<char>>,
    pub operation: Option<Seq<char>>,
    pub operation_id: Option<Seq<char>>,
    pub operation_message: Option<Seq<char>>,
}

impl DeepView for ContainerState {
    type V = ContainerStateView;

    open spec fn deep_view(&self) -> ContainerStateView {
        ContainerStateView {
            state: self.state@,
            container_id: self.container_id.deep_view(),
            image: self.image@,
            name: self.name@,
            description: self.description.deep_view(),
            startup_command: self.startup_command.deep_view(),
            disk_limit: self.disk_limit.deep_view(),
            memory_limit: self.memory_limit.deep_view(),
            cpu_limit: self.cpu_limit.deep_view(),
            swap_limit: self.swap_limit.deep_view(),
            pids_limit: self.pids_limit.deep_view(),
            threads_limit: self.threads_limit.deep_view(),
            attached_volumes: self.attached_volumes.deep_view(),
            ports: self.ports.deep_view(),
            env: self.env.deep_view(),
            created_at: self.created_at,
            updated_at: self.updated_at,
            locked: self.locked.deep_view(),
            lock_reason: self.lock_reason.deep_view(),
            locked_at: self.locked_at.deep_view(),
            restart_policy: self.restart_policy.deep_view(),
            operation: self.operation.deep_view(),
            operation_id: self.operation_id.deep_view(),
            operation_message: self.operation_message.deep_view(),
        }
    }
}

impl Duplicate for ContainerState {
    fn duplicate(&self) -> (r: Self) {
        ContainerState {
            state: self.state.duplicate(),
            container_id: self.container_id.duplicate(),
            image: self.image.duplicate(),
            name: self.name.duplicate(),
            description: self.description.duplicate(),
            startup_command: self.startup_command.duplicate(),
            disk_limit: self.disk_limit.duplicate(),
            memory_limit: self.memory_limit.duplicate(),
            cpu_limit: self.cpu_limit.duplicate(),
            swap_limit: self.swap_limit.duplicate(),
            pids_limit: self.pids_limit,
            threads_limit: self.threads_limit,
            attached_volumes: self.attached_volumes.duplicate(),
            ports: self.ports.duplicate(),
            env: self.env.duplicate(),
            created_at: self.created_at,
            updated_at: self.updated_at,
            locked: self.locked,
            lock_reason: self.lock_reason.duplicate(),
            locked_at: self.locked_at,
            restart_policy: self.restart_policy.duplicate(),
            operation: self.operation.duplicate(),
            operation_id: self.operation_id.duplicate(),
            operation_message: self.operation_message.duplicate(),
        }
    }
}

} // verus!
