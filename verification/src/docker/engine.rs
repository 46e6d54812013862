//! What the engine is told when it makes a container.

use vstd::prelude::*;

verus! {

/// A port of a container that is open to the host.
#[derive(Debug, Clone)]
pub struct EngineBinding {
    /// Number and protocol, such as "80/tcp".
    pub port: String,
    pub host_ip: String,
    pub host_port: String,
}

/// What a [`EngineBinding`] holds.
#[verifier::ext_equal]
pub struct EngineBindingView {
    pub port: Seq<char>,
    pub host_ip: Seq<char>,
    pub host_port: Seq<char>,
}

impl DeepView for EngineBinding {
    type V = EngineBindingView;

    open spec fn deep_view(&self) -> EngineBindingView {
        EngineBindingView {
            port: self.port@,
            host_ip: self.host_ip@,
            host_port: self.host_port@,
        }
    }
}

/// A container that the engine is to make.
#[derive(Debug, Clone)]
pub struct EngineConfig {
    pub name: String,
    pub image: String,
    pub cmd: Vec<String>,
    pub working_dir: String,
    /// Whether it has a terminal.
    pub tty: bool,
    /// Whether its input and output can be attached to.
    pub interactive: bool,
    pub env: Vec<String>,
    /// Directories of the host that it sees.
    pub binds: Vec<String>,
    /// Its open ports; without any, nothing is said of ports.
    pub ports: Option<Vec<EngineBinding>>,
    pub restart_unless_stopped: bool,
    pub oom_kill_disable: Option<bool>,
}

/// What a [`EngineConfig`] holds.
#[verifier::ext_equal]
pub struct EngineConfigView {
    pub name: Seq<char>,
    pub image: Seq<char>,
    pub cmd: Seq<Seq<char>>,
    pub working_dir: Seq<char>,
    pub tty: bool,
    pub interactive: bool,
    pub env: Seq<Seq<char>>,
    pub binds: Seq<Seq<char>>,
    pub ports: Option<Seq<EngineBindingView>>,
    pub restart_unless_stopped: bool,
    pub oom_kill_disable: Option<bool>,
}

impl DeepView for EngineConfig {
    type V = EngineConfigView;

    open spec fn deep_view(&self) -> EngineConfigView {
        EngineConfigView {
            name: self.name@,
            image: self.image@,
            cmd: self.cmd.deep_view(),
            working_dir: self.working_dir@,
            tty: self.tty,
            interactive: self.interactive,
            env: self.env.deep_view(),
            binds: self.binds.deep_view(),
            ports: self.ports.deep_view(),
            restart_unless_stopped: self.restart_unless_stopped,
            oom_kill_disable: self.oom_kill_disable.deep_view(),
        }
    }
}
} // verus!
