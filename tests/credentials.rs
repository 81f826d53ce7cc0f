use graph_keysets::credentials::{
    status_is_success, Config, MicrosoftGraph, TokenResponse, TokenStep,
};
use graph_keysets::error::MicrosoftGraphError;

fn config() -> Config {
    Config::from_values(
        Some("cid".to_string()),
        Some("csecret".to_string()),
        Some("contoso".to_string()),
        Some("https://login.example.com".to_string()),
        Some("https://graph.microsoft.com".to_string()),
    )
    .unwrap()
}

fn reply(token: &str, expires_on: &str) -> Option<TokenResponse> {
    Some(TokenResponse { access_token: token.to_string(), expires_on: expires_on.to_string() })
}

fn missing(name: &str) -> MicrosoftGraphError {
    MicrosoftGraphError::ConfigurationError { name: name.to_string() }
}

#[test]
fn config_reports_first_missing_variable() {
    let s = || Some("v".to_string());
    assert_eq!(Config::from_values(None, None, s(), s(), s()).unwrap_err(), missing("CLIENT_ID"));
    assert_eq!(Config::from_values(s(), None, s(), s(), s()).unwrap_err(), missing("CLIENT_SECRET"));
    assert_eq!(Config::from_values(s(), s(), None, s(), s()).unwrap_err(), missing("TENANT"));
    assert_eq!(Config::from_values(s(), s(), s(), None, s()).unwrap_err(), missing("LOGIN_URL"));
    assert_eq!(Config::from_values(s(), s(), s(), s(), None).unwrap_err(), missing("RESOURCE"));
}

#[test]
fn config_keeps_all_values() {
    let c = config();
    assert_eq!(c.client_id, "cid");
    assert_eq!(c.client_secret, "csecret");
    assert_eq!(c.tenant, "contoso");
    assert_eq!(c.login_url, "https://login.example.com");
    assert_eq!(c.resource, "https://graph.microsoft.com");
}

#[test]
fn new_manager_is_expired() {
    let g = MicrosoftGraph::new(config());
    assert_eq!(g.access_token, "");
    assert_eq!(g.expires_on, 0);
    assert!(g.has_token_expired(0));
    assert!(matches!(g.get_token(0), TokenStep::Refresh(_)));
}

#[test]
fn token_request_has_url_and_form() {
    let g = MicrosoftGraph::new(config());
    let q = g.token_request();
    assert_eq!(q.url, "https://login.example.com/contoso/oauth2/token?api-version=1.0");
    let form: Vec<(&str, &str)> = q.form.iter().map(|(k, v)| (k.as_str(), v.as_str())).collect();
    assert_eq!(
        form,
        vec![
            ("grant_type", "client_credentials"),
            ("client_id", "cid"),
            ("client_secret", "csecret"),
            ("resource", "https://graph.microsoft.com"),
        ]
    );
}

#[test]
fn valid_token_is_served_from_cache() {
    let mut g = MicrosoftGraph::new(config());
    assert_eq!(g.complete_refresh(200, String::new(), reply("tok", "1000")), Ok("tok".to_string()));
    for now in [0u64, 500, 999] {
        match g.get_token(now) {
            TokenStep::Cached(t) => assert_eq!(t, "tok"),
            TokenStep::Refresh(_) => panic!("refresh while the token is valid"),
        }
    }
    assert_eq!(g.access_token, "tok");
    assert_eq!(g.expires_on, 1000);
}

#[test]
fn expired_token_asks_for_one_refresh() {
    let mut g = MicrosoftGraph::new(config());
    g.complete_refresh(200, String::new(), reply("old", "1000")).unwrap();
    let q = match g.get_token(1000) {
        TokenStep::Refresh(q) => q,
        TokenStep::Cached(_) => panic!("token served at its expiry instant"),
    };
    assert_eq!(q.url, "https://login.example.com/contoso/oauth2/token?api-version=1.0");
    assert_eq!(g.complete_refresh(200, String::new(), reply("new", "5000")), Ok("new".to_string()));
    assert!(matches!(g.get_token(1000), TokenStep::Cached(t) if t == "new"));
}

#[test]
fn refresh_success_sets_token_and_expiry() {
    let mut g = MicrosoftGraph::new(config());
    let r = g.complete_refresh(204, String::new(), reply("abc", "9999999999"));
    assert_eq!(r, Ok("abc".to_string()));
    assert_eq!(g.access_token, "abc");
    assert_eq!(g.expires_on, 9999999999);
}

#[test]
fn refresh_rejected_keeps_credential() {
    let mut g = MicrosoftGraph::new(config());
    g.complete_refresh(200, String::new(), reply("keep", "77")).unwrap();
    let body = "{\"error\":\"invalid_client\"}".to_string();
    let r = g.complete_refresh(401, body.clone(), reply("other", "99"));
    assert_eq!(r, Err(MicrosoftGraphError::AuthError { status: 401, body }));
    assert_eq!(g.access_token, "keep");
    assert_eq!(g.expires_on, 77);
    let r = g.complete_refresh(500, String::new(), None);
    assert_eq!(r, Err(MicrosoftGraphError::AuthError { status: 500, body: String::new() }));
    assert_eq!(g.access_token, "keep");
}

#[test]
fn refresh_with_malformed_body_is_token_format_error() {
    let mut g = MicrosoftGraph::new(config());
    let r = g.complete_refresh(200, "not json".to_string(), None);
    assert_eq!(r, Err(MicrosoftGraphError::TokenFormatError("not json".to_string())));
    assert_eq!(g.access_token, "");
    assert_eq!(g.expires_on, 0);
}

#[test]
fn refresh_with_bad_expiry_changes_nothing() {
    for bad in ["", "+", "-1", "12a", "1.5", " 7", "18446744073709551616"] {
        let mut g = MicrosoftGraph::new(config());
        let r = g.complete_refresh(200, "b".to_string(), reply("abc", bad));
        assert_eq!(r, Err(MicrosoftGraphError::TokenFormatError("b".to_string())), "{bad:?}");
        assert_eq!(g.access_token, "");
        assert_eq!(g.expires_on, 0);
    }
}

#[test]
fn refresh_accepts_plus_sign_and_largest_value() {
    let mut g = MicrosoftGraph::new(config());
    g.complete_refresh(200, String::new(), reply("a", "+42")).unwrap();
    assert_eq!(g.expires_on, 42);
    g.complete_refresh(200, String::new(), reply("b", "18446744073709551615")).unwrap();
    assert_eq!(g.expires_on, u64::MAX);
    assert_eq!(g.access_token, "b");
}

#[test]
fn zero_expiry_is_refreshed_again_a_second_later() {
    let mut g = MicrosoftGraph::new(config());
    assert!(matches!(g.get_token(100), TokenStep::Refresh(_)));
    g.complete_refresh(200, String::new(), reply("abc", "0")).unwrap();
    assert_eq!(g.expires_on, 0);
    assert!(matches!(g.get_token(101), TokenStep::Refresh(_)));
}

#[test]
fn success_range_is_200_to_299() {
    assert!(!status_is_success(199));
    assert!(status_is_success(200));
    assert!(status_is_success(201));
    assert!(status_is_success(299));
    assert!(!status_is_success(300));
    assert!(!status_is_success(404));
}
