//! Uploading log bodies to the trace server: the request sent, the
//! bearer token kept after login, and when a response asks for a new login.
use vstd::prelude::*;

use crate::common::text::{concat2, owned, starts_with};
use crate::trace_stream::settings::{with_domain_text, RemoteServerConfig};

verus! {

broadcast use vstd::string::group_string_axioms;

/// `Bearer TOKEN`, the authorization value of an access token.
pub open spec fn bearer_text(access_token: Seq<char>) -> Seq<char> {
    "Bearer "@ + access_token
}

/// The authorization value for an access token returned by the login.
pub fn store_access_token_value(access_token: &str) -> (r: String)
    ensures
        r@ == bearer_text(access_token@),
{
    concat2("Bearer ", access_token)
}

/// The request that uploads a log body: the endpoint address, the
/// authorization header when a token is held, and the content type.
pub struct UploadRequest {
    pub uri: String,
    pub authorization: Option<String>,
    pub content_type: String,
}

/// The upload request for the trace server, with the held authorization
/// value if any.
pub fn send_log_request(ser_config: &RemoteServerConfig, access_token: Option<&String>) -> (r: UploadRequest)
    ensures
        r.uri@ == with_domain_text(ser_config.server_domain_text(), ser_config.upload_uri_text()),
        match access_token {
            Some(t) => r.authorization matches Some(a) && a@ == t@,
            None => r.authorization is None,
        },
        r.content_type@ == "application/json"@,
{
    let uri = ser_config.get_upload_uri();
    let authorization = match access_token {
        Some(t) => Some(t.clone()),
        None => None,
    };
    UploadRequest { uri, authorization, content_type: owned("application/json") }
}

/// Whether the answer to an upload asks for a new login: an HTTP 200
/// response whose body reads as a response with a code starting with `AU`.
pub open spec fn relogin_needed(status: u16, resp_code: Option<Seq<char>>) -> bool {
    &&& status == 200
    &&& resp_code matches Some(c)
    &&& c.len() >= 2
    &&& c.subrange(0, 2) == "AU"@
}

/// Decides from the HTTP status and the code of the decoded response body
/// (`None` when it did not decode) whether to log in again.
pub fn parse_resp(status: u16, resp_code: Option<&str>) -> (r: bool)
    ensures
        r == relogin_needed(
            status,
            match resp_code {
                Some(c) => Some(c@),
                None => None,
            },
        ),
        status != 200 ==> !r,
        resp_code is None ==> !r,
        status == 200 && resp_code is Some ==> (r <==> (resp_code->0@.len() >= 2
            && resp_code->0@[0] == 'A' && resp_code->0@[1] == 'U')),
{
    proof {
        reveal_strlit("AU");
        law_relogin_on_every_au_code(
            status,
            match resp_code {
                Some(c) => Some(c@),
                None => None,
            },
        );
    }
    if status != 200 {
        return false;
    }
    match resp_code {
        Some(code) => starts_with(code, "AU"),
        None => false,
    }
}

/// An upload is answered by a new login exactly when the server accepted
/// the request (HTTP 200) and its response code begins with the letters
/// `A` and `U`, whatever follows them: every `AU` code (an expired or
/// missing token, a refused login, ...) asks for one, no other code does,
/// and neither does a failed request or an undecodable body.
pub proof fn law_relogin_on_every_au_code(status: u16, resp_code: Option<Seq<char>>)
    ensures
        relogin_needed(status, resp_code) <==> (status == 200 && resp_code is Some
            && resp_code->0.len() >= 2 && resp_code->0[0] == 'A' && resp_code->0[1] == 'U'),
        forall|rest: Seq<char>| #[trigger] relogin_needed(200, Some("AU"@ + rest)),
{
    reveal_strlit("AU");
    if let Some(c) = resp_code {
        if c.len() >= 2 {
            assert("AU"@.len() == 2 && "AU"@[0] == 'A' && "AU"@[1] == 'U');
            assert(c.subrange(0, 2)[0] == c[0] && c.subrange(0, 2)[1] == c[1]);
            if c[0] == 'A' && c[1] == 'U' {
                assert(c.subrange(0, 2) =~= "AU"@);
            }
        }
    }
    assert forall|rest: Seq<char>| #[trigger] relogin_needed(200, Some("AU"@ + rest)) by {
        let c = "AU"@ + rest;
        assert(c.subrange(0, 2) =~= "AU"@);
    }
}

} // verus!
