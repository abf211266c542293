//! What holds of the gateway across its operations.
use crate::calls::{call_to, fs_remote_body, list_query_call, CallView};
use crate::config::{basic_auth_of, config_of, ConfigView};
use crate::reply::{is_json_text, is_success, mutation_status_of, BackendReply};
use crate::types::ListFilesQuery;
use vstd::prelude::*;

verus! {

/// A listing query that names no path lists the root: the backend is asked for
/// the empty path.
pub proof fn lemma_omitted_remote_lists_root(cfg: ConfigView, q: ListFilesQuery)
    requires
        q.remote is None,
    ensures
        list_query_call(cfg, q) == call_to(
            cfg,
            "operations/list"@,
            Some(fs_remote_body(q.fs@, Seq::empty())),
        ),
{
}

/// A backend answer with a status outside 200..=299 makes any call that changes
/// the backend fail with 500, whatever the answer's body.
pub proof fn lemma_rejected_mutation_fails(code: u16, body: String)
    requires
        !is_success(code),
    ensures
        mutation_status_of(BackendReply::Answered { code, body }) == 500,
{
}

/// A backend answer with a status in 200..=299 and a JSON body makes a call that
/// changes the backend succeed with 200; the body is not passed on.
pub proof fn lemma_accepted_mutation_succeeds(code: u16, body: String)
    requires
        is_success(code),
        is_json_text(body@),
    ensures
        mutation_status_of(BackendReply::Answered { code, body }) == 200,
{
}

/// Every call made under a configuration built with both a username and a
/// password carries `Basic base64(username:password)`; with either missing, no
/// call carries an `Authorization` header.
pub proof fn lemma_every_call_signed(
    base_url: Seq<char>,
    username: Option<Seq<char>>,
    password: Option<Seq<char>>,
    endpoint: Seq<char>,
    body: Option<Seq<char>>,
)
    ensures
        ({
            let call: CallView = call_to(config_of(base_url, username, password), endpoint, body);
            &&& (username is Some && password is Some) ==> call.authorization == Some(
                basic_auth_of(username->0, password->0),
            )
            &&& (username is None || password is None) ==> call.authorization is None
        }),
{
}

} // verus!
