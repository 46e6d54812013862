//! Ports of the host that containers are given.

use crate::duplicate::Duplicate;
use vstd::prelude::*;

verus! {

/// A port of the host that is bound to a port of a container.
#[derive(Debug, Clone)]
pub struct PortAllocation {
    pub container_port: String,
    pub host_port: String,
    pub host_ip: String,
    pub protocol: String,
}

/// What a [`PortAllocation`] holds.
#[verifier::ext_equal]
pub struct PortAllocationView {
    pub container_port: Seq<char>,
    pub host_port: Seq<char>,
    pub host_ip: Seq<char>,
    pub protocol: Seq<char>,
}

impl DeepView for PortAllocation {
    type V = PortAllocationView;

    open spec fn deep_view(&self) -> PortAllocationView {
        PortAllocationView {
            container_port: self.container_port@,
            host_port: self.host_port@,
            host_ip: self.host_ip@,
            protocol: self.protocol@,
        }
    }
}

impl Duplicate for PortAllocation {
    fn duplicate(&self) -> (r: Self) {
        PortAllocation {
            container_port: self.container_port.duplicate(),
            host_port: self.host_port.duplicate(),
            host_ip: self.host_ip.duplicate(),
            protocol: self.protocol.duplicate(),
        }
    }
}

} // verus!
