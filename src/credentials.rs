use vstd::prelude::*;

use crate::error::MicrosoftGraphError;
use crate::number::{parse_u64, parsed_u64};

verus! {

/// The connection parameters of the client-credentials grant.
#[derive(Debug)]
pub struct Config {
    pub client_id: String,
    pub client_secret: String,
    pub tenant: String,
    pub login_url: String,
    pub resource: String,
}

/// A form-encoded token request: where it goes and its fields, in order.
#[derive(Debug)]
pub struct TokenRequest {
    pub url: String,
    pub form: Vec<(String, String)>,
}

/// The fields of the identity provider's JSON answer to a token request.
#[derive(Debug)]
pub struct TokenResponse {
    pub access_token: String,
    pub expires_on: String,
}

/// What it takes to hand out a token: the cached one serves, or the caller
/// must send the given request and pass its answer to `complete_refresh`.
#[derive(Debug)]
pub enum TokenStep {
    Cached(String),
    Refresh(TokenRequest),
}

/// The credential manager: one bearer token and the instant, in seconds since
/// the epoch, at which it stops being valid.
#[derive(Debug)]
pub struct MicrosoftGraph {
    pub config: Config,
    pub access_token: String,
    pub expires_on: u64,
}

/// HTTP statuses in the success range, 200 to 299.
pub open spec fn is_success(status: u16) -> bool {
    200 <= status < 300
}

/// Tells whether an HTTP status is in the success range.
pub fn status_is_success(status: u16) -> (r: bool)
    ensures
        r == is_success(status),
{
    200 <= status && status < 300
}

pub open spec fn pairs_view(v: Seq<(String, String)>) -> Seq<(Seq<char>, Seq<char>)> {
    v.map_values(|p: (String, String)| (p.0@, p.1@))
}

/// `{login_url}/{tenant}/oauth2/token?api-version=1.0`
pub open spec fn token_url(c: Config) -> Seq<char> {
    c.login_url@ + "/"@ + c.tenant@ + "/oauth2/token?api-version=1.0"@
}

/// The form fields of the client-credentials grant.
pub open spec fn token_form(c: Config) -> Seq<(Seq<char>, Seq<char>)> {
    seq![
        ("grant_type"@, "client_credentials"@),
        ("client_id"@, c.client_id@),
        ("client_secret"@, c.client_secret@),
        ("resource"@, c.resource@),
    ]
}

/// The manager and the result after the answer to a token request: on a
/// success status with a well-formed body, token and expiry are replaced
/// together and the new token is returned; on anything else neither changes.
pub open spec fn refresh_outcome(
    g: MicrosoftGraph,
    status: u16,
    body: String,
    reply: Option<TokenResponse>,
) -> (MicrosoftGraph, Result<String, MicrosoftGraphError>) {
    if !is_success(status) {
        (g, Err(MicrosoftGraphError::AuthError { status, body }))
    } else {
        match reply {
            None => (g, Err(MicrosoftGraphError::TokenFormatError(body))),
            Some(t) => match parsed_u64(t.expires_on@) {
                None => (g, Err(MicrosoftGraphError::TokenFormatError(body))),
                Some(e) => (
                    MicrosoftGraph { config: g.config, access_token: t.access_token, expires_on: e },
                    Ok(t.access_token),
                ),
            },
        }
    }
}

impl Config {
    /// Builds the configuration from the five parameters, each possibly
    /// missing; the first missing one, in the order of the signature, is
    /// reported by its environment variable name.
    pub fn from_values(
        client_id: Option<String>,
        client_secret: Option<String>,
        tenant: Option<String>,
        login_url: Option<String>,
        resource: Option<String>,
    ) -> (r: Result<Config, MicrosoftGraphError>)
        ensures
            r is Ok <==> (client_id is Some && client_secret is Some && tenant is Some
                && login_url is Some && resource is Some),
            r matches Ok(c) ==> (c.client_id == client_id->Some_0
                && c.client_secret == client_secret->Some_0 && c.tenant == tenant->Some_0
                && c.login_url == login_url->Some_0 && c.resource == resource->Some_0),
            client_id is None ==> (r matches Err(
                MicrosoftGraphError::ConfigurationError { name },
            ) && name@ == "CLIENT_ID"@),
            client_id is Some && client_secret is None ==> (r matches Err(
                MicrosoftGraphError::ConfigurationError { name },
            ) && name@ == "CLIENT_SECRET"@),
            client_id is Some && client_secret is Some && tenant is None ==> (r matches Err(
                MicrosoftGraphError::ConfigurationError { name },
            ) && name@ == "TENANT"@),
            client_id is Some && client_secret is Some && tenant is Some && login_url is None
                ==> (r matches Err(MicrosoftGraphError::ConfigurationError { name })
                && name@ == "LOGIN_URL"@),
            client_id is Some && client_secret is Some && tenant is Some && login_url is Some
                && resource is None ==> (r matches Err(
                MicrosoftGraphError::ConfigurationError { name },
            ) && name@ == "RESOURCE"@),
    {
        let client_id = match client_id {
            Some(v) => v,
            None => {
                return Err(
                    MicrosoftGraphError::ConfigurationError { name: String::from_str("CLIENT_ID") },
                );
            },
        };
        let client_secret = match client_secret {
            Some(v) => v,
            None => {
                return Err(
                    MicrosoftGraphError::ConfigurationError {
                        name: String::from_str("CLIENT_SECRET"),
                    },
                );
            },
        };
        let tenant = match tenant {
            Some(v) => v,
            None => {
                return Err(
                    MicrosoftGraphError::ConfigurationError { name: String::from_str("TENANT") },
                );
            },
        };
        let login_url = match login_url {
            Some(v) => v,
            None => {
                return Err(
                    MicrosoftGraphError::ConfigurationError { name: String::from_str("LOGIN_URL") },
                );
            },
        };
        let resource = match resource {
            Some(v) => v,
            None => {
                return Err(
                    MicrosoftGraphError::ConfigurationError { name: String::from_str("RESOURCE") },
                );
            },
        };
        Ok(Config { client_id, client_secret, tenant, login_url, resource })
    }
}

impl MicrosoftGraph {
    /// Whether the token is expired at `now`: there is no margin, a token is
    /// expired from its expiry instant on.
    pub open spec fn expired_at(&self, now: u64) -> bool {
        now >= self.expires_on
    }

    /// A manager with no token yet, so that it is expired at every instant.
    pub fn new(config: Config) -> (r: MicrosoftGraph)
        ensures
            r.config == config,
            r.access_token@ == Seq::<char>::empty(),
            r.expires_on == 0,
            forall|now: u64| r.expired_at(now),
    {
        MicrosoftGraph { config, access_token: String::new(), expires_on: 0 }
    }

    pub fn has_token_expired(&self, now: u64) -> (r: bool)
        ensures
            r == self.expired_at(now),
    {
        now >= self.expires_on
    }

    /// The token request for this manager's configuration.
    pub fn token_request(&self) -> (r: TokenRequest)
        ensures
            r.url@ == token_url(self.config),
            pairs_view(r.form@) == token_form(self.config),
    {
        let mut url = self.config.login_url.clone();
        url.append("/");
        url.append(self.config.tenant.as_str());
        url.append("/oauth2/token?api-version=1.0");
        let mut form: Vec<(String, String)> = Vec::new();
        form.push((String::from_str("grant_type"), String::from_str("client_credentials")));
        form.push((String::from_str("client_id"), self.config.client_id.clone()));
        form.push((String::from_str("client_secret"), self.config.client_secret.clone()));
        form.push((String::from_str("resource"), self.config.resource.clone()));
        assert(pairs_view(form@) =~= token_form(self.config));
        TokenRequest { url, form }
    }

    /// The cached token while it is valid at `now`; otherwise the one token
    /// request that refreshes it. Nothing is changed either way.
    pub fn get_token(&self, now: u64) -> (r: TokenStep)
        ensures
            !self.expired_at(now) <==> r is Cached,
            r matches TokenStep::Cached(t) ==> t == self.access_token,
            r matches TokenStep::Refresh(q) ==> (q.url@ == token_url(self.config)
                && pairs_view(q.form@) == token_form(self.config)),
    {
        if self.has_token_expired(now) {
            TokenStep::Refresh(self.token_request())
        } else {
            TokenStep::Cached(self.access_token.clone())
        }
    }

    /// Takes in the answer to a token request: its status, its body, and the
    /// body read as a token response where it has that shape.
    pub fn complete_refresh(
        &mut self,
        status: u16,
        body: String,
        reply: Option<TokenResponse>,
    ) -> (r: Result<String, MicrosoftGraphError>)
        ensures
            (*final(self), r) == refresh_outcome(*old(self), status, body, reply),
    {
        if !status_is_success(status) {
            return Err(MicrosoftGraphError::AuthError { status, body });
        }
        match reply {
            None => Err(MicrosoftGraphError::TokenFormatError(body)),
            Some(t) => match parse_u64(t.expires_on.as_str()) {
                None => Err(MicrosoftGraphError::TokenFormatError(body)),
                Some(e) => {
                    let token = t.access_token.clone();
                    self.access_token = t.access_token;
                    self.expires_on = e;
                    Ok(token)
                },
            },
        }
    }
}

/// A refresh answered with a success status and a well-formed body replaces
/// token and expiry together, the expiry being exactly the value that
/// `expires_on` spells; a refresh that fails in any way changes neither.
pub proof fn lemma_refresh_is_atomic(
    g: MicrosoftGraph,
    status: u16,
    body: String,
    reply: Option<TokenResponse>,
)
    ensures
        ({
            let (after, r) = refresh_outcome(g, status, body, reply);
            &&& r is Ok <==> (is_success(status) && reply is Some
                && parsed_u64(reply->Some_0.expires_on@) is Some)
            &&& r is Ok ==> (after.access_token == reply->Some_0.access_token
                && Some(after.expires_on) == parsed_u64(reply->Some_0.expires_on@)
                && after.config == g.config && r == Ok::<String, MicrosoftGraphError>(
                after.access_token,
            ))
            &&& r is Err ==> after == g
        }),
{
}

/// A token request answered with a non-success status leaves the credential
/// as it was and fails with `AuthError`, carrying that status and body.
pub proof fn lemma_rejected_refresh_keeps_credential(
    g: MicrosoftGraph,
    status: u16,
    body: String,
    reply: Option<TokenResponse>,
)
    requires
        !is_success(status),
    ensures
        refresh_outcome(g, status, body, reply).0 == g,
        refresh_outcome(g, status, body, reply).1 == Err::<String, MicrosoftGraphError>(
            MicrosoftGraphError::AuthError { status, body },
        ),
{
}

/// One refresh is enough: after a refresh that succeeded, a token asked for
/// at any instant before the new expiry is the cached one.
pub proof fn lemma_refreshed_token_is_served(
    g: MicrosoftGraph,
    status: u16,
    body: String,
    reply: Option<TokenResponse>,
    now: u64,
)
    requires
        refresh_outcome(g, status, body, reply).1 is Ok,
        now < parsed_u64(reply->Some_0.expires_on@)->Some_0,
    ensures
        !refresh_outcome(g, status, body, reply).0.expired_at(now),
{
}

/// A refresh that succeeded with an expiry that `now` has reached leaves the
/// credential expired at `now`: the next token asked for is refreshed again.
pub proof fn lemma_stale_refresh_is_refreshed_again(
    g: MicrosoftGraph,
    status: u16,
    body: String,
    reply: Option<TokenResponse>,
    now: u64,
)
    requires
        refresh_outcome(g, status, body, reply).1 is Ok,
        now >= parsed_u64(reply->Some_0.expires_on@)->Some_0,
    ensures
        refresh_outcome(g, status, body, reply).0.expired_at(now),
{
}

} // verus!
