//! Verified core of the `viv` command-line tool: its grammar, its lifecycle decisions, its
//! renderings, and the small parsers the guest agent and the supervisor rely on.
#![allow(unused_imports)]

pub mod exit;
pub mod text;
pub mod numbers;
pub mod grammar;
pub mod verbs;
pub mod failure;
pub mod render;
pub mod paths;
pub mod lifecycle;
pub mod attach;
pub mod supervisor;
pub mod generations;
pub mod destroy;
pub mod prompt;
pub mod fleet;
pub mod trim;
pub mod session;
pub mod update;
pub mod workspace;
pub mod resolution;
pub mod launcher;
pub mod config_view;
pub mod agent;
pub mod doctor;
pub mod tables;
pub mod views;
pub mod provenance;
pub mod status;
pub mod manifest;
pub mod sources;
pub mod stop;
pub mod reuse;
pub mod admission;
pub mod timestamps;
pub mod records;
pub mod connection;
pub mod pathsort;
pub mod console;
pub mod sweep;
pub mod start;
pub mod guest_build;
pub mod reclaim;
pub mod update_run;
