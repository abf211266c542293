//! The backend calls, one for each operation: where each goes, which header it
//! carries and what body it sends.
use crate::config::{opt_string_view, ClientConfig, ConfigView};
use crate::types::{
    effective_remote_of, CopyFileRequest, CreateDirectoryRequest, CreateMountRequest,
    DeleteFileRequest, ListFilesQuery, MoveFileRequest, UnmountRequest,
};
use crate::json::{
    bool_member, json_bool_text, json_string_text, member_text, object, object_text,
    string_member,
};
use vstd::prelude::*;

verus! {

/// One outbound call: an HTTP POST of `body` (JSON, if any) to `url`, with an
/// `Authorization` header when `authorization` holds one.
#[derive(Debug, Clone)]
pub struct BackendCall {
    pub url: String,
    pub authorization: Option<String>,
    pub body: Option<String>,
}

/// What a [`BackendCall`] holds, as plain values.
pub struct CallView {
    pub url: Seq<char>,
    pub authorization: Option<Seq<char>>,
    pub body: Option<Seq<char>>,
}

impl View for BackendCall {
    type V = CallView;

    open spec fn view(&self) -> CallView {
        CallView {
            url: self.url@,
            authorization: opt_string_view(self.authorization),
            body: opt_string_view(self.body),
        }
    }
}

/// The call to `endpoint` with `body` under the configuration `cfg`.
pub open spec fn call_to(cfg: ConfigView, endpoint: Seq<char>, body: Option<Seq<char>>) -> CallView {
    CallView { url: cfg.base_url + seq!['/'] + endpoint, authorization: cfg.auth_header, body }
}

/// The body `{"fs":..,"remote":..}` that names one path of a remote.
pub open spec fn fs_remote_body(fs: Seq<char>, remote: Seq<char>) -> Seq<char> {
    object_text(
        seq![
            member_text("fs"@, json_string_text(fs)),
            member_text("remote"@, json_string_text(remote)),
        ],
    )
}

/// The body `{"fs":..,"mountPoint":..}` of a mount.
pub open spec fn mount_body(fs: Seq<char>, mount_point: Seq<char>) -> Seq<char> {
    object_text(
        seq![
            member_text("fs"@, json_string_text(fs)),
            member_text("mountPoint"@, json_string_text(mount_point)),
        ],
    )
}

/// The body `{"mountPoint":..}` of an unmount.
pub open spec fn unmount_body(mount_point: Seq<char>) -> Seq<char> {
    object_text(seq![member_text("mountPoint"@, json_string_text(mount_point))])
}

/// The body of a copy or a move, which the backend runs as a job of its own.
pub open spec fn transfer_body(
    src_fs: Seq<char>,
    src_remote: Seq<char>,
    dst_fs: Seq<char>,
    dst_remote: Seq<char>,
) -> Seq<char> {
    object_text(
        seq![
            member_text("srcFs"@, json_string_text(src_fs)),
            member_text("srcRemote"@, json_string_text(src_remote)),
            member_text("dstFs"@, json_string_text(dst_fs)),
            member_text("dstRemote"@, json_string_text(dst_remote)),
            member_text("_async"@, json_bool_text(true)),
        ],
    )
}

fn make_fs_remote_body(fs: &str, remote: &str) -> (r: String)
    ensures
        r@ == fs_remote_body(fs@, remote@),
{
    let members = vec![string_member("fs", fs), string_member("remote", remote)];
    proof {
        assert(members@.map_values(|m: String| m@) =~= seq![
            member_text("fs"@, json_string_text(fs@)),
            member_text("remote"@, json_string_text(remote@)),
        ]);
    }
    object(&members)
}

fn make_mount_body(fs: &str, mount_point: &str) -> (r: String)
    ensures
        r@ == mount_body(fs@, mount_point@),
{
    let members = vec![string_member("fs", fs), string_member("mountPoint", mount_point)];
    proof {
        assert(members@.map_values(|m: String| m@) =~= seq![
            member_text("fs"@, json_string_text(fs@)),
            member_text("mountPoint"@, json_string_text(mount_point@)),
        ]);
    }
    object(&members)
}

fn make_unmount_body(mount_point: &str) -> (r: String)
    ensures
        r@ == unmount_body(mount_point@),
{
    let members = vec![string_member("mountPoint", mount_point)];
    proof {
        assert(members@.map_values(|m: String| m@) =~= seq![
            member_text("mountPoint"@, json_string_text(mount_point@)),
        ]);
    }
    object(&members)
}

fn make_transfer_body(src_fs: &str, src_remote: &str, dst_fs: &str, dst_remote: &str) -> (r:
    String)
    ensures
        r@ == transfer_body(src_fs@, src_remote@, dst_fs@, dst_remote@),
{
    let members = vec![
        string_member("srcFs", src_fs),
        string_member("srcRemote", src_remote),
        string_member("dstFs", dst_fs),
        string_member("dstRemote", dst_remote),
        bool_member("_async", true),
    ];
    proof {
        assert(members@.map_values(|m: String| m@) =~= seq![
            member_text("srcFs"@, json_string_text(src_fs@)),
            member_text("srcRemote"@, json_string_text(src_remote@)),
            member_text("dstFs"@, json_string_text(dst_fs@)),
            member_text("dstRemote"@, json_string_text(dst_remote@)),
            member_text("_async"@, json_bool_text(true)),
        ]);
    }
    object(&members)
}

impl ClientConfig {
    /// The call to `endpoint` with `body`: to `{base_url}/{endpoint}`, signed
    /// with the configured header, if there is one.
    pub fn call(&self, endpoint: &str, body: Option<String>) -> (r: BackendCall)
        ensures
            r@ == call_to(self@, endpoint@, opt_string_view(body)),
    {
        let url = String::from_str(self.base_url()).concat("/").concat(endpoint);
        let authorization = match self.auth_header() {
            Some(h) => Some(String::from_str(h)),
            None => None,
        };
        proof {
            reveal_strlit("/");
            assert(url@ =~= self@.base_url + seq!['/'] + endpoint@);
        }
        BackendCall { url, authorization, body }
    }

    /// The authenticated no-op probe.
    pub fn health_check_call(&self) -> (r: BackendCall)
        ensures
            r@ == call_to(self@, "rc/noopauth"@, None),
    {
        self.call("rc/noopauth", None)
    }

    /// The call that lists the configured remotes.
    pub fn list_remotes_call(&self) -> (r: BackendCall)
        ensures
            r@ == call_to(self@, "config/listremotes"@, None),
    {
        self.call("config/listremotes", None)
    }

    /// The call that lists the entries at `remote` in `fs`.
    pub fn list_files_call(&self, fs: &str, remote: &str) -> (r: BackendCall)
        ensures
            r@ == call_to(self@, "operations/list"@, Some(fs_remote_body(fs@, remote@))),
    {
        self.call("operations/list", Some(make_fs_remote_body(fs, remote)))
    }

    /// The call that dumps the backend's configuration.
    pub fn config_dump_call(&self) -> (r: BackendCall)
        ensures
            r@ == call_to(self@, "config/dump"@, None),
    {
        self.call("config/dump", None)
    }

    /// The call that lists the backend's jobs.
    pub fn list_jobs_call(&self) -> (r: BackendCall)
        ensures
            r@ == call_to(self@, "job/list"@, None),
    {
        self.call("job/list", None)
    }

    /// The call that lists the active mounts.
    pub fn list_mounts_call(&self) -> (r: BackendCall)
        ensures
            r@ == call_to(self@, "mount/listmounts"@, None),
    {
        self.call("mount/listmounts", None)
    }

    /// The call that mounts `fs` at `mount_point`.
    pub fn create_mount_call(&self, fs: &str, mount_point: &str) -> (r: BackendCall)
        ensures
            r@ == call_to(self@, "mount/mount"@, Some(mount_body(fs@, mount_point@))),
    {
        self.call("mount/mount", Some(make_mount_body(fs, mount_point)))
    }

    /// The call that removes the mount at `mount_point`.
    pub fn unmount_call(&self, mount_point: &str) -> (r: BackendCall)
        ensures
            r@ == call_to(self@, "mount/unmount"@, Some(unmount_body(mount_point@))),
    {
        self.call("mount/unmount", Some(make_unmount_body(mount_point)))
    }

    /// The call that copies one file, as a backend job.
    pub fn copy_file_call(&self, src_fs: &str, src_remote: &str, dst_fs: &str, dst_remote: &str) -> (r:
        BackendCall)
        ensures
            r@ == call_to(
                self@,
                "operations/copyfile"@,
                Some(transfer_body(src_fs@, src_remote@, dst_fs@, dst_remote@)),
            ),
    {
        self.call(
            "operations/copyfile",
            Some(make_transfer_body(src_fs, src_remote, dst_fs, dst_remote)),
        )
    }

    /// The call that moves one file, as a backend job.
    pub fn move_file_call(&self, src_fs: &str, src_remote: &str, dst_fs: &str, dst_remote: &str) -> (r:
        BackendCall)
        ensures
            r@ == call_to(
                self@,
                "operations/movefile"@,
                Some(transfer_body(src_fs@, src_remote@, dst_fs@, dst_remote@)),
            ),
    {
        self.call(
            "operations/movefile",
            Some(make_transfer_body(src_fs, src_remote, dst_fs, dst_remote)),
        )
    }

    /// The call that deletes the file `remote` of `fs`.
    pub fn delete_file_call(&self, fs: &str, remote: &str) -> (r: BackendCall)
        ensures
            r@ == call_to(self@, "operations/deletefile"@, Some(fs_remote_body(fs@, remote@))),
    {
        self.call("operations/deletefile", Some(make_fs_remote_body(fs, remote)))
    }

    /// The call that creates the directory `remote` in `fs`.
    pub fn create_directory_call(&self, fs: &str, remote: &str) -> (r: BackendCall)
        ensures
            r@ == call_to(self@, "operations/mkdir"@, Some(fs_remote_body(fs@, remote@))),
    {
        self.call("operations/mkdir", Some(make_fs_remote_body(fs, remote)))
    }
}

/// The call that answers the listing query `q` under `cfg`.
pub open spec fn list_query_call(cfg: ConfigView, q: ListFilesQuery) -> CallView {
    call_to(
        cfg,
        "operations/list"@,
        Some(fs_remote_body(q.fs@, effective_remote_of(opt_string_view(q.remote)))),
    )
}

impl ListFilesQuery {
    /// The backend call that answers this query; an omitted path lists the root.
    pub fn backend_call(&self, cfg: &ClientConfig) -> (r: BackendCall)
        ensures
            r@ == list_query_call(cfg@, *self),
    {
        let remote = self.effective_remote();
        cfg.list_files_call(self.fs.as_str(), remote.as_str())
    }
}

impl CreateMountRequest {
    /// The backend call that performs this request.
    pub fn backend_call(&self, cfg: &ClientConfig) -> (r: BackendCall)
        ensures
            r@ == call_to(cfg@, "mount/mount"@, Some(mount_body(self.fs@, self.mount_point@))),
    {
        cfg.create_mount_call(self.fs.as_str(), self.mount_point.as_str())
    }
}

impl UnmountRequest {
    /// The backend call that performs this request.
    pub fn backend_call(&self, cfg: &ClientConfig) -> (r: BackendCall)
        ensures
            r@ == call_to(cfg@, "mount/unmount"@, Some(unmount_body(self.mount_point@))),
    {
        cfg.unmount_call(self.mount_point.as_str())
    }
}

impl CopyFileRequest {
    /// The backend call that performs this request.
    pub fn backend_call(&self, cfg: &ClientConfig) -> (r: BackendCall)
        ensures
            r@ == call_to(
                cfg@,
                "operations/copyfile"@,
                Some(transfer_body(self.src_fs@, self.src_remote@, self.dst_fs@, self.dst_remote@)),
            ),
    {
        cfg.copy_file_call(
            self.src_fs.as_str(),
            self.src_remote.as_str(),
            self.dst_fs.as_str(),
            self.dst_remote.as_str(),
        )
    }
}

impl MoveFileRequest {
    /// The backend call that performs this request.
    pub fn backend_call(&self, cfg: &ClientConfig) -> (r: BackendCall)
        ensures
            r@ == call_to(
                cfg@,
                "operations/movefile"@,
                Some(transfer_body(self.src_fs@, self.src_remote@, self.dst_fs@, self.dst_remote@)),
            ),
    {
        cfg.move_file_call(
            self.src_fs.as_str(),
            self.src_remote.as_str(),
            self.dst_fs.as_str(),
            self.dst_remote.as_str(),
        )
    }
}

impl DeleteFileRequest {
    /// The backend call that performs this request.
    pub fn backend_call(&self, cfg: &ClientConfig) -> (r: BackendCall)
        ensures
            r@ == call_to(cfg@, "operations/deletefile"@, Some(fs_remote_body(self.fs@, self.remote@))),
    {
        cfg.delete_file_call(self.fs.as_str(), self.remote.as_str())
    }
}

impl CreateDirectoryRequest {
    /// The backend call that performs this request.
    pub fn backend_call(&self, cfg: &ClientConfig) -> (r: BackendCall)
        ensures
            r@ == call_to(cfg@, "operations/mkdir"@, Some(fs_remote_body(self.fs@, self.remote@))),
    {
        cfg.create_directory_call(self.fs.as_str(), self.remote.as_str())
    }
}

} // verus!
