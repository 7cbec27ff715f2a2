//! Provisioning of the Thrift language server for an editor plugin: which
//! server to start, under which file name the release binary is cached, and
//! the decisions of the download-and-start flow.

pub mod config;
pub mod flow;
/// What holds of the activation as a whole.
pub mod laws;
pub mod platform;
pub mod text;
