//! Verified decision logic of the SendIT drag-and-drop file transfer tool.

pub mod decimal;
pub mod topic;
pub mod status;
pub mod command;
pub mod drop_zone;
pub mod settings;
pub mod state;
