//! Firewall rules for each container.
//!
//! Each container has a chain of its own, named after its UUID, into which its rules are
//! written and which is hooked into the traffic from and to its address.

pub mod manager;
pub mod matching;
pub mod rules;
pub mod tables;

pub use manager::FirewallManager;
pub use rules::{
    ContainerFirewall, FirewallAction, FirewallDirection, FirewallProtocol, FirewallRule,
};
