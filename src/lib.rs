//! Lifecycle management for third-party emulator packages: a fixed registry of
//! packages, the on-disk layout of their installs, the integrity gates applied to
//! downloads, and the decisions that drive acquisition, uninstall, executable
//! resolution and launch. All file-system and network work is done by the caller,
//! which reports each outcome back to the state machines defined here.

pub mod error;
pub mod registry;
pub mod layout;
pub mod fetch;
pub mod acquire;
pub mod disk;
pub mod manage;
