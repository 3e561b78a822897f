//! Package transport and publishing rules for Typst packages.

pub mod text;
pub mod version;
pub mod package;
pub mod error;
pub mod memory;
pub mod archive;
pub mod storage;
pub mod remote;
pub mod pack;
pub mod source;
pub mod kind;
pub mod walk;
pub mod submission;
pub mod planner;
pub mod git;
pub mod upload;
pub mod publish;
pub mod publish_laws;
pub mod commands;
pub mod paths;
