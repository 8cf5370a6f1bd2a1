//! Session coordination for using a network camera as a virtual capture
//! device: the decisions of the session are made here, on plain values, and
//! every one of them carries a contract that Verus checks.

pub mod adb;
pub mod audio;
pub mod backend;
pub mod cam_info;
pub mod cli;
pub mod command;
pub mod config;
pub mod control;
pub mod pipeline;
pub mod session;
pub mod text;

pub use adb::AdbServer;
pub use audio::AudioSupport;
pub use pipeline::Dcam;
