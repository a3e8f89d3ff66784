//! Verified core of a Python binding for a desktop web-view framework:
//! take-once holders, IPC command dispatch, run events and app handles.

pub mod slot;
pub mod header;
pub mod ipc;
pub mod app_handle;
pub mod run_event;
pub mod app;
