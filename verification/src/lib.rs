//! Launcher core: process supervision, login-session monitoring, and
//! multi-registry update resolution, with machine-checked contracts.

pub mod client;
pub mod launch;
pub mod login;
pub mod net;
pub mod qr;
pub mod registry;
pub mod supervisor;
pub mod text;
pub mod update;
pub mod version;
