//! The decision logic of a container daemon.

pub mod docker;
pub mod duplicate;
pub mod firewall;
pub mod handlers;
pub mod models;
pub mod number;
pub mod order;
pub mod outside;
pub mod services;
pub mod state_manager;
pub mod table;
pub mod text;
pub mod websocket;
