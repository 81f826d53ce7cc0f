use vstd::prelude::*;

use crate::credentials::{is_success, pairs_view, status_is_success, MicrosoftGraph};
use crate::error::MicrosoftGraphError;
use crate::json::{int_text, quoted};
use crate::models::{KeySecret, KeySet, SECRET_LIFETIME};

verus! {

#[derive(Debug, Clone, Copy, PartialEq, Eq, Structural)]
pub enum HttpMethod {
    Get,
    Post,
}

/// One authenticated call to the key-set service, ready to be sent.
#[derive(Debug)]
pub struct ApiRequest {
    pub method: HttpMethod,
    pub url: String,
    pub body: Option<String>,
}

/// The client of the trust framework's key sets. It holds the credential
/// manager, from which every call takes its bearer token.
#[derive(Debug)]
pub struct PolicyKey {
    pub graph: MicrosoftGraph,
}

/// Where the key sets live.
pub open spec fn key_sets_url() -> Seq<char> {
    "https://graph.microsoft.com/beta/trustFramework/keySets"@
}

/// The body that creates a key set: its identifier alone.
pub open spec fn create_body(key_id: Seq<char>) -> Seq<char> {
    "{\"id\":"@ + quoted(key_id) + "}"@
}

/// The body that uploads a signing secret valid from `now` for one day.
pub open spec fn upload_body(secret: Seq<char>, now: int) -> Seq<char> {
    "{\"use\":"@ + quoted("sig"@) + ",\"k\":"@ + quoted(secret) + ",\"nbf\":"@ + int_text(now)
        + ",\"exp\":"@ + int_text(now + SECRET_LIFETIME) + "}"@
}

/// The headers of a call: the bearer token, and the content type where the
/// call carries a body.
pub open spec fn headers_view(token: Seq<char>, has_body: bool) -> Seq<(Seq<char>, Seq<char>)> {
    let auth = seq![("Authorization"@, "Bearer "@ + token)];
    if has_body {
        auth.push(("Content-Type"@, "application/json"@))
    } else {
        auth
    }
}

fn key_set_url(key_id: &str) -> (r: String)
    ensures
        r@ == key_sets_url() + "/"@ + key_id@,
{
    let mut url = String::from_str("https://graph.microsoft.com/beta/trustFramework/keySets");
    url.append("/");
    url.append(key_id);
    url
}

/// The headers that a call with the given token carries.
pub fn request_headers(token: &str, has_body: bool) -> (r: Vec<(String, String)>)
    ensures
        pairs_view(r@) == headers_view(token@, has_body),
{
    let mut r: Vec<(String, String)> = Vec::new();
    let mut bearer = String::from_str("Bearer ");
    bearer.append(token);
    r.push((String::from_str("Authorization"), bearer));
    if has_body {
        r.push((String::from_str("Content-Type"), String::from_str("application/json")));
    }
    assert(pairs_view(r@) =~= headers_view(token@, has_body));
    r
}

/// The outcome of a call from its answer: the body, to be read as the
/// expected type, on a success status; otherwise `HttpResponseError` with the
/// status and the body as they came.
pub fn check_response(status: u16, body: String) -> (r: Result<String, MicrosoftGraphError>)
    ensures
        is_success(status) ==> r == Ok::<String, MicrosoftGraphError>(body),
        !is_success(status) ==> r == Err::<String, MicrosoftGraphError>(
            MicrosoftGraphError::HttpResponseError { status, body },
        ),
{
    if status_is_success(status) {
        Ok(body)
    } else {
        Err(MicrosoftGraphError::HttpResponseError { status, body })
    }
}

impl PolicyKey {
    pub fn new(graph: MicrosoftGraph) -> (r: PolicyKey)
        ensures
            r.graph == graph,
    {
        PolicyKey { graph }
    }

    /// The call that creates the key set `key_id`.
    pub fn create_key_set(&self, key_id: &str) -> (r: Result<ApiRequest, MicrosoftGraphError>)
        ensures
            r is Ok,
            r matches Ok(q) ==> (q.method == HttpMethod::Post && q.url@ == key_sets_url()
                && q.body is Some && q.body->Some_0@ == create_body(key_id@)),
            r matches Err(e) ==> e is SerdeError,
    {
        let key_set = KeySet::new(key_id);
        let body = key_set.to_json()?;
        let url = String::from_str("https://graph.microsoft.com/beta/trustFramework/keySets");
        Ok(ApiRequest { method: HttpMethod::Post, url, body: Some(body) })
    }

    /// The call that uploads `secret` into the key set `key_id`, valid from
    /// `now` for one day.
    pub fn upload_secret(&self, key_id: &str, now: u64, secret: &str) -> (r: Result<
        ApiRequest,
        MicrosoftGraphError,
    >)
        requires
            now + SECRET_LIFETIME <= i64::MAX,
        ensures
            r is Ok,
            r matches Ok(q) ==> (q.method == HttpMethod::Post && q.url@ == key_sets_url() + "/"@
                + key_id@ + "/uploadSecret"@ && q.body is Some
                && q.body->Some_0@ == upload_body(secret@, now as int)),
            r matches Err(e) ==> e is SerdeError,
    {
        let key_secret = KeySecret::new(now, secret);
        let body = key_secret.to_json()?;
        let mut url = key_set_url(key_id);
        url.append("/uploadSecret");
        Ok(ApiRequest { method: HttpMethod::Post, url, body: Some(body) })
    }

    /// The call that fetches the key set `key_id`.
    pub fn get_key_set(&self, key_id: &str) -> (r: ApiRequest)
        ensures
            r.method == HttpMethod::Get,
            r.url@ == key_sets_url() + "/"@ + key_id@,
            r.body is None,
    {
        ApiRequest { method: HttpMethod::Get, url: key_set_url(key_id), body: None }
    }
}

} // verus!
