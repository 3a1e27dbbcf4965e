//! Verified core of a first-boot WiFi setup daemon: interface and subnet
//! selection, scan result handling, saved credentials, the station-connect
//! and orchestrator state machines, and the text the portal and helpers use.

pub mod scan;
pub mod state;
pub mod text;
pub mod credentials;
pub mod resolver;
pub mod subnet;
pub mod connector;
pub mod orchestrator;
pub mod ap;
pub mod apconfig;
pub mod portal;
pub mod ipc;
pub mod tui;
