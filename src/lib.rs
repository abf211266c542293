//! A small gateway library in front of rclone's remote-control API: it builds
//! the backend calls (address, credentials, JSON bodies) and decides what a
//! backend reply means for the gateway's own HTTP answer.

pub mod calls;
pub mod config;
pub mod json;
pub mod laws;
pub mod reply;
pub mod types;

pub use calls::BackendCall;
pub use config::ClientConfig;
pub use reply::{BackendReply, CallError};
pub use types::{
    CopyFileRequest, CreateDirectoryRequest, CreateMountRequest, DeleteFileRequest, FileInfo,
    HealthResponse, JobInfo, ListFilesQuery, MountInfo, MoveFileRequest, UnmountRequest,
};
