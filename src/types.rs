//! The values that cross the gateway: what a caller sends, and what it gets back.
use crate::config::opt_string_view;
use vstd::prelude::*;

verus! {

/// One entry of a directory listing, as the backend reports it.
#[derive(Debug, Clone)]
pub struct FileInfo {
    pub path: String,
    pub name: String,
    pub size: Option<i64>,
    pub is_dir: bool,
    pub mod_time: Option<String>,
}

/// A backend job, named by its identifier.
#[derive(Debug, Clone, Copy, PartialEq, Eq, Structural)]
pub struct JobInfo {
    pub id: i32,
}

/// A path at which the backend holds a mount.
#[derive(Debug, Clone)]
pub struct MountInfo {
    pub mount_point: String,
}

/// The query of a directory listing; `remote` is the path inside `fs`.
#[derive(Debug, Clone)]
pub struct ListFilesQuery {
    pub fs: String,
    pub remote: Option<String>,
}

/// Mount the remote `fs` at the local path `mount_point`.
#[derive(Debug, Clone)]
pub struct CreateMountRequest {
    pub fs: String,
    pub mount_point: String,
}

/// Remove the mount at `mount_point`.
#[derive(Debug, Clone)]
pub struct UnmountRequest {
    pub mount_point: String,
}

/// Copy one file from `src_fs`/`src_remote` to `dst_fs`/`dst_remote`.
#[derive(Debug, Clone)]
pub struct CopyFileRequest {
    pub src_fs: String,
    pub src_remote: String,
    pub dst_fs: String,
    pub dst_remote: String,
}

/// Move one file from `src_fs`/`src_remote` to `dst_fs`/`dst_remote`.
#[derive(Debug, Clone)]
pub struct MoveFileRequest {
    pub src_fs: String,
    pub src_remote: String,
    pub dst_fs: String,
    pub dst_remote: String,
}

/// Delete the file `remote` of `fs`.
#[derive(Debug, Clone)]
pub struct DeleteFileRequest {
    pub fs: String,
    pub remote: String,
}

/// Create the directory `remote` in `fs`.
#[derive(Debug, Clone)]
pub struct CreateDirectoryRequest {
    pub fs: String,
    pub remote: String,
}

/// The answer of the health route.
#[derive(Debug, Clone)]
pub struct HealthResponse {
    pub status: String,
    pub backend_connected: bool,
}

/// The path that a listing asks for: the given one, or the root when none is given.
pub open spec fn effective_remote_of(remote: Option<Seq<char>>) -> Seq<char> {
    match remote {
        Some(r) => r,
        None => Seq::empty(),
    }
}

impl ListFilesQuery {
    /// The path to list, the root (the empty path) when the query names none.
    pub fn effective_remote(&self) -> (r: String)
        ensures
            r@ == effective_remote_of(opt_string_view(self.remote)),
    {
        match &self.remote {
            Some(s) => s.clone(),
            None => String::new(),
        }
    }
}

/// The jobs that a list of backend job identifiers names, one for each, in order.
pub fn jobs_from_ids(ids: &Vec<i32>) -> (r: Vec<JobInfo>)
    ensures
        r@.len() == ids@.len(),
        forall|i: int| 0 <= i < ids@.len() ==> (#[trigger] r@[i]).id == ids@[i],
{
    let mut r: Vec<JobInfo> = Vec::new();
    let mut k: usize = 0;
    while k < ids.len()
        invariant
            k <= ids@.len(),
            r@.len() == k,
            forall|i: int| 0 <= i < k ==> (#[trigger] r@[i]).id == ids@[i],
        decreases ids@.len() - k,
    {
        r.push(JobInfo { id: ids[k] });
        k = k + 1;
    }
    r
}

/// The mounts that a list of backend mount points names, one for each, in order.
pub fn mounts_from_points(points: Vec<String>) -> (r: Vec<MountInfo>)
    ensures
        r@.len() == points@.len(),
        forall|i: int| 0 <= i < points@.len() ==> (#[trigger] r@[i]).mount_point@ == points@[i]@,
{
    let mut r: Vec<MountInfo> = Vec::new();
    let mut k: usize = 0;
    while k < points.len()
        invariant
            k <= points@.len(),
            r@.len() == k,
            forall|i: int| 0 <= i < k ==> (#[trigger] r@[i]).mount_point@ == points@[i]@,
        decreases points@.len() - k,
    {
        r.push(MountInfo { mount_point: points[k].clone() });
        k = k + 1;
    }
    r
}

} // verus!
