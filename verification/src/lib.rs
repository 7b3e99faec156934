//! Update checking for a single host.
//!
//! The library knows the supported package managers and what each of them
//! prints, decides which of them a host has, reads their listings into
//! update records, and lays down the protocol by which one check runs
//! while other instances of the program on the same host wait for it.
//!
//! The library runs no process, reads no file and keeps no time: the
//! caller does what the library asks for and reports what came of it.
//! Every function states what it computes, and is proved to compute it.
//!
//! - `package_manager`: the catalog of managers and their commands.
//! - `detector`: which managers are available, and which is preferred.
//! - `text`: searching, trimming and splitting of text.
//! - `parser`: the line formats of the managers.
//! - `update`: update records and reports.
//! - `checker`: what the run of a check command means.
//! - `protocol`: one update check, step by step.
//! - `coordinator`: the lock file and the sync marker.
//! - `config`: the user's settings.
//! - `applet`: the panel applet's state and its reactions.
//! - `display`: what the applet shows, as text.

pub mod applet;
pub mod checker;
pub mod config;
pub mod coordinator;
pub mod detector;
pub mod display;
pub mod package_manager;
pub mod parser;
pub mod protocol;
pub mod text;
pub mod update;
