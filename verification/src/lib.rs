//! Verified core of a Minecraft server manager: the index of created servers,
//! control messages, console history, configuration lookups and the decisions
//! taken while creating servers and installing Java runtimes.

pub mod api;
pub mod console;
pub mod control;
pub mod create;
pub mod error;
pub mod files;
pub mod handler;
pub mod index;
pub mod indexed_create;
pub mod install;
pub mod java;
pub mod local_java;
pub mod mc_server;
pub mod minecraft;
pub mod routed;
pub mod text;
pub mod ws;
