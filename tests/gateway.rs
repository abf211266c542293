use rclone_gateway::calls::BackendCall;
use rclone_gateway::config::{basic_auth_header, trim_end_slashes, ClientConfig};
use rclone_gateway::json::{bool_member, object, string_member};
use rclone_gateway::reply::{
    check_status, expect_json, gateway_status, health_response, json_verdict, mutation_status,
    status_is_success, BackendReply, CallError,
};
use rclone_gateway::types::{jobs_from_ids, mounts_from_points};
use rclone_gateway::{
    CopyFileRequest, CreateDirectoryRequest, CreateMountRequest, DeleteFileRequest,
    ListFilesQuery, MoveFileRequest, UnmountRequest,
};

fn cfg() -> ClientConfig {
    ClientConfig::new("http://localhost:5572/", Some("user"), Some("pass"))
}

fn answered(code: u16, body: &str) -> BackendReply {
    BackendReply::Answered { code, body: body.to_string() }
}

fn body_of(call: &BackendCall) -> &str {
    call.body.as_deref().expect("the call has a body")
}

#[test]
fn base_url_loses_trailing_slashes() {
    let c = ClientConfig::new("http://localhost:5572///", None, None);
    assert_eq!(c.base_url(), "http://localhost:5572");
    assert_eq!(trim_end_slashes("a/b/"), "a/b");
    assert_eq!(trim_end_slashes("///"), "");
    assert_eq!(trim_end_slashes(""), "");
    assert_eq!(trim_end_slashes("x"), "x");
}

#[test]
fn both_credentials_give_basic_header() {
    let c = cfg();
    assert_eq!(c.auth_header(), Some("Basic dXNlcjpwYXNz"));
    let call = c.list_remotes_call();
    assert_eq!(call.authorization.as_deref(), Some("Basic dXNlcjpwYXNz"));
    let call = c.copy_file_call("a:", "x", "b:", "y");
    assert_eq!(call.authorization.as_deref(), Some("Basic dXNlcjpwYXNz"));
}

#[test]
fn one_credential_missing_gives_no_header() {
    let c = ClientConfig::new("http://h:1", Some("user"), None);
    assert_eq!(c.auth_header(), None);
    assert_eq!(c.health_check_call().authorization, None);
    let c = ClientConfig::new("http://h:1", None, Some("pass"));
    assert_eq!(c.auth_header(), None);
    assert_eq!(c.delete_file_call("a:", "f").authorization, None);
}

#[test]
fn calls_without_body_go_to_their_endpoints() {
    let c = cfg();
    let cases = [
        (c.health_check_call(), "rc/noopauth"),
        (c.list_remotes_call(), "config/listremotes"),
        (c.config_dump_call(), "config/dump"),
        (c.list_jobs_call(), "job/list"),
        (c.list_mounts_call(), "mount/listmounts"),
    ];
    for (call, endpoint) in cases.iter() {
        assert_eq!(call.url, format!("http://localhost:5572/{}", endpoint));
        assert_eq!(call.body, None);
    }
}

#[test]
fn listing_without_remote_lists_root() {
    let q = ListFilesQuery { fs: "myremote:".to_string(), remote: None };
    assert_eq!(q.effective_remote(), "");
    let call = q.backend_call(&cfg());
    assert_eq!(call.url, "http://localhost:5572/operations/list");
    assert_eq!(body_of(&call), r#"{"fs":"myremote:","remote":""}"#);
}

#[test]
fn listing_scenario_passes_entries_through() {
    let q = ListFilesQuery { fs: "myremote:".to_string(), remote: Some("docs".to_string()) };
    let call = q.backend_call(&cfg());
    assert_eq!(call.url, "http://localhost:5572/operations/list");
    assert_eq!(body_of(&call), r#"{"fs":"myremote:","remote":"docs"}"#);
    let text = r#"{"list":[{"path":"docs/a.txt","name":"a.txt","size":120,"is_dir":false,"mod_time":"2024-01-01T00:00:00Z"}]}"#;
    match check_status(answered(200, text)) {
        Ok(body) => assert_eq!(body, text),
        Err(e) => panic!("unexpected failure {:?}", e),
    }
}

#[test]
fn copy_scenario_runs_as_job_and_answers_200() {
    let req = CopyFileRequest {
        src_fs: "a:".to_string(),
        src_remote: "x.txt".to_string(),
        dst_fs: "b:".to_string(),
        dst_remote: "y.txt".to_string(),
    };
    let call = req.backend_call(&cfg());
    assert_eq!(call.url, "http://localhost:5572/operations/copyfile");
    assert_eq!(
        body_of(&call),
        r#"{"srcFs":"a:","srcRemote":"x.txt","dstFs":"b:","dstRemote":"y.txt","_async":true}"#
    );
    assert!(body_of(&call).contains(r#""_async":true"#));
    assert_eq!(mutation_status(&answered(200, "{}")), 200);
}

#[test]
fn move_sends_async_transfer() {
    let req = MoveFileRequest {
        src_fs: "a:".to_string(),
        src_remote: "x".to_string(),
        dst_fs: "b:".to_string(),
        dst_remote: "y".to_string(),
    };
    let call = req.backend_call(&cfg());
    assert_eq!(call.url, "http://localhost:5572/operations/movefile");
    assert_eq!(
        body_of(&call),
        r#"{"srcFs":"a:","srcRemote":"x","dstFs":"b:","dstRemote":"y","_async":true}"#
    );
}

#[test]
fn mount_and_unmount_use_backend_names() {
    let m = CreateMountRequest { fs: "gd:".to_string(), mount_point: "/mnt/gd".to_string() };
    let call = m.backend_call(&cfg());
    assert_eq!(call.url, "http://localhost:5572/mount/mount");
    assert_eq!(body_of(&call), r#"{"fs":"gd:","mountPoint":"/mnt/gd"}"#);
    let u = UnmountRequest { mount_point: "/mnt/gd".to_string() };
    let call = u.backend_call(&cfg());
    assert_eq!(call.url, "http://localhost:5572/mount/unmount");
    assert_eq!(body_of(&call), r#"{"mountPoint":"/mnt/gd"}"#);
}

#[test]
fn delete_and_mkdir_name_one_path() {
    let d = DeleteFileRequest { fs: "a:".to_string(), remote: "old.txt".to_string() };
    let call = d.backend_call(&cfg());
    assert_eq!(call.url, "http://localhost:5572/operations/deletefile");
    assert_eq!(body_of(&call), r#"{"fs":"a:","remote":"old.txt"}"#);
    let k = CreateDirectoryRequest { fs: "a:".to_string(), remote: "new".to_string() };
    let call = k.backend_call(&cfg());
    assert_eq!(call.url, "http://localhost:5572/operations/mkdir");
    assert_eq!(body_of(&call), r#"{"fs":"a:","remote":"new"}"#);
}

#[test]
fn strings_are_escaped_in_bodies() {
    assert_eq!(string_member("k", "a\"b\\c"), r#""k":"a\"b\\c""#);
    assert_eq!(string_member("k", "line\n"), r#""k":"line\n""#);
    assert_eq!(bool_member("f", false), r#""f":false"#);
    assert_eq!(object(&vec![]), "{}");
    assert_eq!(object(&vec!["\"a\":1".to_string()]), r#"{"a":1}"#);
}

#[test]
fn non_success_status_fails_mutation() {
    assert_eq!(mutation_status(&answered(404, "{}")), 500);
    assert_eq!(mutation_status(&answered(500, "not json")), 500);
    assert_eq!(mutation_status(&answered(199, "{}")), 500);
    assert_eq!(mutation_status(&answered(300, r#"{"ok":true}"#)), 500);
    assert_eq!(mutation_status(&BackendReply::Unreachable), 500);
}

#[test]
fn success_with_json_passes_mutation() {
    assert_eq!(mutation_status(&answered(200, r#"{"jobid":7}"#)), 200);
    assert_eq!(mutation_status(&answered(299, "[]")), 200);
    assert_eq!(mutation_status(&answered(204, "")), 500);
}

#[test]
fn verdicts_name_each_failure() {
    assert!(matches!(expect_json(&BackendReply::Unreachable), Err(CallError::Transport)));
    match expect_json(&answered(403, "denied")) {
        Err(CallError::Status { code, body }) => {
            assert_eq!(code, 403);
            assert_eq!(body, "denied");
        }
        other => panic!("unexpected {:?}", other),
    }
    assert!(matches!(expect_json(&answered(200, "<html>")), Err(CallError::Decode)));
    assert!(matches!(expect_json(&answered(200, "{}")), Ok(())));
    assert!(matches!(check_status(BackendReply::Unreachable), Err(CallError::Transport)));
    assert!(matches!(
        check_status(answered(502, "bad")),
        Err(CallError::Status { code: 502, .. })
    ));
}

#[test]
fn gateway_status_collapses_failures() {
    let ok: Result<u8, CallError> = Ok(1);
    assert_eq!(gateway_status(&ok), 200);
    let err: Result<u8, CallError> = Err(CallError::Decode);
    assert_eq!(gateway_status(&err), 500);
    assert!(!status_is_success(199));
    assert!(status_is_success(200));
    assert!(status_is_success(299));
    assert!(!status_is_success(300));
}

#[test]
fn health_reports_probe() {
    let h = health_response(&answered(200, "{}"));
    assert_eq!(h.status, "ok");
    assert!(h.backend_connected);
    let h = health_response(&BackendReply::Unreachable);
    assert_eq!(h.status, "ok");
    assert!(!h.backend_connected);
    let h = health_response(&answered(401, "{}"));
    assert_eq!(h.status, "ok");
    assert!(!h.backend_connected);
}

#[test]
fn job_ids_become_jobs() {
    let jobs = jobs_from_ids(&vec![3, -1, 42]);
    let ids: Vec<i32> = jobs.iter().map(|j| j.id).collect();
    assert_eq!(ids, vec![3, -1, 42]);
    assert!(jobs_from_ids(&vec![]).is_empty());
}

#[test]
fn mount_points_become_mounts() {
    let mounts = mounts_from_points(vec!["/mnt/a".to_string(), "/mnt/b".to_string()]);
    let points: Vec<&str> = mounts.iter().map(|m| m.mount_point.as_str()).collect();
    assert_eq!(points, vec!["/mnt/a", "/mnt/b"]);
    assert!(mounts_from_points(vec![]).is_empty());
}

#[test]
fn basic_header_prefixes_encoded_credentials() {
    assert_eq!(basic_auth_header("dXNlcjpwYXNz"), "Basic dXNlcjpwYXNz");
    assert_eq!(basic_auth_header(""), "Basic ");
}

#[test]
fn json_verdict_follows_status_then_parse() {
    assert!(matches!(json_verdict(&answered(200, "anything"), true), Ok(())));
    assert!(matches!(json_verdict(&answered(200, "{}"), false), Err(CallError::Decode)));
    assert!(matches!(
        json_verdict(&answered(500, "{}"), true),
        Err(CallError::Status { code: 500, .. })
    ));
    assert!(matches!(json_verdict(&BackendReply::Unreachable, true), Err(CallError::Transport)));
}
