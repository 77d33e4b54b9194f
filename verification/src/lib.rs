//! Verified core of the orchestrator studio and its observability stack.

pub mod text;
pub mod common;
pub mod events;
pub mod trackers;
pub mod sink;
pub mod origin;
pub mod services;
pub mod agents;
pub mod overview;
pub mod inference;
pub mod launch;
pub mod ssh_session;
pub mod agent_defs;
pub mod preview;
pub mod catalog_remote;
pub mod state;
pub mod models;
pub mod agent_editor;
pub mod machines;
pub mod nodes;
pub mod design;
pub mod operations;
pub mod orchestrators;
pub mod pickers;
pub mod review;
pub mod shell;
pub mod tools;
pub mod workflows;
pub mod dds_observe;
pub mod trace_collector;
pub mod qos_store;
pub mod navigation;
