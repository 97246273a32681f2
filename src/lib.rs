//! The verified core of a minimal Linux container runtime: cgroup limit
//! planning and teardown, namespace flag selection, root pivot ordering,
//! command resolution and the decisions of the child supervisor.

pub mod boot;
pub mod cgroup;
pub mod cli;
pub mod error;
pub mod filesystem;
pub mod namespace;
pub mod process;
pub mod supervisor;
pub mod teardown;
pub mod text;
