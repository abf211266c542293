//! The gateway's fixed view of the backend: where it lives and how to sign in.
use base64::Engine;
use vstd::prelude::*;

verus! {

/// The padded standard-alphabet Base64 text of the UTF-8 bytes of `s`.
pub uninterp spec fn base64_standard(s: Seq<char>) -> Seq<char>;

/// Relies on base64's `general_purpose::STANDARD.encode`: the padded
/// standard-alphabet encoding of the text's UTF-8 bytes, fixed by those bytes alone.
/// Its one panic, on a length whose encoding overflows `usize`, needs more bytes
/// than a `str` can hold.
#[verifier::external_body]
fn base64_encode(text: &str) -> (r: String)
    ensures
        r@ == base64_standard(text@),
{
    base64::engine::general_purpose::STANDARD.encode(text)
}

/// `s` without the slashes that end it.
pub open spec fn trim_trailing_slashes(s: Seq<char>) -> Seq<char>
    decreases s.len(),
{
    if s.len() > 0 && s.last() == '/' {
        trim_trailing_slashes(s.drop_last())
    } else {
        s
    }
}

/// The text `user:pass` that Basic authentication encodes.
pub open spec fn credentials_of(user: Seq<char>, pass: Seq<char>) -> Seq<char> {
    user + seq![':'] + pass
}

/// The value of the `Authorization` header for Basic authentication.
pub open spec fn basic_auth_of(user: Seq<char>, pass: Seq<char>) -> Seq<char> {
    "Basic "@ + base64_standard(credentials_of(user, pass))
}

/// The header that a client with the given credentials sends: one only when both are given.
pub open spec fn auth_header_of(user: Option<Seq<char>>, pass: Option<Seq<char>>) -> Option<
    Seq<char>,
> {
    match (user, pass) {
        (Some(u), Some(p)) => Some(basic_auth_of(u, p)),
        _ => None,
    }
}

/// The view of an optional text.
pub open spec fn opt_view(s: Option<&str>) -> Option<Seq<char>> {
    match s {
        Some(t) => Some(t@),
        None => None,
    }
}

/// The view of an optional owned text.
pub open spec fn opt_string_view(s: Option<String>) -> Option<Seq<char>> {
    match s {
        Some(t) => Some(t@),
        None => None,
    }
}

proof fn lemma_trim_step(s: Seq<char>, end: int)
    requires
        0 < end <= s.len(),
        s[end - 1] == '/',
    ensures
        trim_trailing_slashes(s.subrange(0, end)) == trim_trailing_slashes(s.subrange(0, end - 1)),
{
    assert(s.subrange(0, end).drop_last() =~= s.subrange(0, end - 1));
}

/// The `Authorization` value for Basic authentication, from the Base64 text of
/// the credentials.
pub fn basic_auth_header(encoded: &str) -> (r: String)
    ensures
        r@ == "Basic "@ + encoded@,
{
    String::from_str("Basic ").concat(encoded)
}

/// `s` with every slash at its end taken off.
pub fn trim_end_slashes(s: &str) -> (r: String)
    ensures
        r@ == trim_trailing_slashes(s@),
{
    let n = s.unicode_len();
    let mut end: usize = n;
    proof {
        assert(s@.subrange(0, n as int) =~= s@);
    }
    while end > 0 && s.get_char(end - 1) == '/'
        invariant
            end <= n,
            n == s@.len(),
            trim_trailing_slashes(s@.subrange(0, end as int)) == trim_trailing_slashes(s@),
        decreases end,
    {
        proof {
            lemma_trim_step(s@, end as int);
        }
        end = end - 1;
    }
    String::from_str(s.substring_char(0, end))
}

/// Where the backend is and which `Authorization` header every call to it carries.
/// It is built once and only read after that.
#[derive(Debug, Clone)]
pub struct ClientConfig {
    base_url: String,
    auth_header: Option<String>,
}

/// What a [`ClientConfig`] holds, as plain values.
pub struct ConfigView {
    pub base_url: Seq<char>,
    pub auth_header: Option<Seq<char>>,
}

/// The configuration that [`ClientConfig::new`] builds from its arguments.
pub open spec fn config_of(
    base_url: Seq<char>,
    username: Option<Seq<char>>,
    password: Option<Seq<char>>,
) -> ConfigView {
    ConfigView {
        base_url: trim_trailing_slashes(base_url),
        auth_header: auth_header_of(username, password),
    }
}

impl View for ClientConfig {
    type V = ConfigView;

    closed spec fn view(&self) -> ConfigView {
        ConfigView { base_url: self.base_url@, auth_header: opt_string_view(self.auth_header) }
    }
}

impl ClientConfig {
    /// The backend's address, with no slash at its end.
    pub fn base_url(&self) -> (r: &str)
        ensures
            r@ == self@.base_url,
    {
        self.base_url.as_str()
    }

    /// The `Authorization` header that every call carries, if any.
    pub fn auth_header(&self) -> (r: Option<&str>)
        ensures
            opt_view(r) == self@.auth_header,
    {
        match &self.auth_header {
            Some(h) => Some(h.as_str()),
            None => None,
        }
    }

    /// The configuration for the backend at `base_url`, signed in with Basic
    /// authentication when both `username` and `password` are given.
    pub fn new(base_url: &str, username: Option<&str>, password: Option<&str>) -> (r: ClientConfig)
        ensures
            r@ == config_of(base_url@, opt_view(username), opt_view(password)),
    {
        let auth_header = match (username, password) {
            (Some(user), Some(pass)) => {
                let credentials = String::from_str(user).concat(":").concat(pass);
                proof {
                    reveal_strlit(":");
                    assert(credentials@ =~= credentials_of(user@, pass@));
                }
                let encoded = base64_encode(credentials.as_str());
                Some(basic_auth_header(encoded.as_str()))
            },
            _ => None,
        };
        ClientConfig { base_url: trim_end_slashes(base_url), auth_header }
    }
}

} // verus!
