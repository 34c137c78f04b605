//! Connection supervision, privileged helper protocol and kill-switch rule
//! synthesis for a desktop VPN client.

pub mod text;
pub mod status;
pub mod remotes;
pub mod killswitch;
pub mod session;
pub mod protocol;
pub mod installer;
pub mod monitor;
