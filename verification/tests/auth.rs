use unique_api::auth::{
    auth_middleware, authenticate_session, path_is_public, session_token, system_principal,
    AuthRequest, AuthStep, AuthUser, Session, SessionLookup, API_KEY_HEADER, COOKIE_HEADER,
    SESSION_COOKIE, SESSION_COOKIE_PREFIX, SYSTEM_ID,
};
use unique_api::error::Rejection;

fn request(path: &str, api_key: Option<&str>, cookie: Option<&str>) -> AuthRequest {
    AuthRequest {
        path: path.to_string(),
        api_key: api_key.map(|k| k.to_string()),
        cookie: cookie.map(|c| c.to_string()),
    }
}

fn found(id: &str, user_id: &str, is_enable: bool) -> SessionLookup {
    SessionLookup::Found(Session { id: id.to_string(), user_id: user_id.to_string(), is_enable })
}

fn same_user(a: &AuthUser, user_id: &str, session_id: &str, is_system: Option<bool>) -> bool {
    a.user_id == user_id && a.session_id == session_id && a.is_system == is_system
}

fn std_token(header: &str) -> Option<String> {
    header
        .split(';')
        .find_map(|cookie| cookie.trim().strip_prefix("unique-sid="))
        .map(|t| t.to_string())
}

#[test]
fn names_of_headers_and_cookie() {
    assert_eq!(API_KEY_HEADER, "x-api-key");
    assert_eq!(COOKIE_HEADER, "Cookie");
    assert_eq!(SESSION_COOKIE, "unique-sid");
    assert_eq!(SESSION_COOKIE_PREFIX, format!("{}=", SESSION_COOKIE));
    assert_eq!(SYSTEM_ID, "system");
}

#[test]
fn documentation_paths_are_public() {
    assert!(path_is_public("/swagger-ui"));
    assert!(path_is_public("/swagger-ui/index.html"));
    assert!(path_is_public("/swagger-uix"));
    assert!(path_is_public("/api-docs"));
    assert!(path_is_public("/api-docs/openapi.json"));
    assert!(path_is_public("/openapi.json"));
    assert!(!path_is_public("/"));
    assert!(!path_is_public(""));
    assert!(!path_is_public("/users"));
    assert!(!path_is_public("/swagger-u"));
    assert!(!path_is_public("/Swagger-ui"));
    assert!(!path_is_public("swagger-ui"));
    assert!(!path_is_public("/v1/swagger-ui"));
    assert!(!path_is_public("/openapi.jso"));
}

#[test]
fn session_token_is_the_value_of_the_session_cookie() {
    assert_eq!(session_token("unique-sid=abc"), Some("abc".to_string()));
    assert_eq!(session_token("a=b; unique-sid=abc; c=d"), Some("abc".to_string()));
    assert_eq!(session_token("a=b;unique-sid=abc"), Some("abc".to_string()));
    assert_eq!(session_token("  unique-sid=abc  "), Some("abc".to_string()));
    assert_eq!(session_token("\tunique-sid=abc\r\n"), Some("abc".to_string()));
    assert_eq!(session_token("unique-sid=a=b"), Some("a=b".to_string()));
    assert_eq!(session_token("unique-sid=a b ;x=y"), Some("a b".to_string()));
    assert_eq!(session_token("unique-sid= abc"), Some(" abc".to_string()));
    assert_eq!(session_token("unique-sid=日本語"), Some("日本語".to_string()));
    assert_eq!(session_token("é=1; unique-sid=tök"), Some("tök".to_string()));
}

#[test]
fn session_token_may_be_empty() {
    assert_eq!(session_token("unique-sid="), Some(String::new()));
    assert_eq!(session_token("unique-sid=;a=b"), Some(String::new()));
    assert_eq!(session_token("unique-sid=   "), Some(String::new()));
}

#[test]
fn session_token_takes_the_first_session_cookie() {
    assert_eq!(session_token("unique-sid=one; unique-sid=two"), Some("one".to_string()));
    assert_eq!(session_token("x; unique-sid=; unique-sid=two"), Some(String::new()));
}

#[test]
fn session_token_is_absent_without_the_cookie() {
    assert_eq!(session_token(""), None);
    assert_eq!(session_token(";"), None);
    assert_eq!(session_token(";;;"), None);
    assert_eq!(session_token("a=b; c=d"), None);
    assert_eq!(session_token("unique-sid"), None);
    assert_eq!(session_token("UNIQUE-SID=abc"), None);
    assert_eq!(session_token("xunique-sid=abc"), None);
    assert_eq!(session_token("unique-sid =abc"), None);
    assert_eq!(session_token("a=unique-sid=abc"), None);
    assert_eq!(session_token("unique-si;d=abc"), None);
}

#[test]
fn session_token_agrees_with_split_trim_strip_prefix() {
    let headers = [
        "",
        " ",
        ";",
        "; ;",
        "unique-sid=abc",
        " unique-sid=abc ;",
        ";unique-sid=abc",
        "a=1;b=2;unique-sid=x;unique-sid=y",
        "a=1; b=2; c=3",
        "unique-sid",
        "unique-sid=",
        "unique-sid= ;",
        "\u{a0}unique-sid=v\u{a0}",
        "\u{3000}unique-sid=v\u{2003}",
        "\u{85}unique-sid=v\u{1680}",
        "\u{200b}unique-sid=v",
        "unique-sid=v\u{200b}",
        "\u{feff}unique-sid=v",
        "\u{1c}unique-sid=v",
        "\u{b}unique-sid=v\u{c}",
        "unique-sid=\u{2028}",
        "theme=dark; unique-sid=01HZX; lang=ja",
    ];
    for h in headers {
        assert_eq!(session_token(h), std_token(h), "header {:?}", h);
    }
}

#[test]
fn public_path_bypasses_every_credential() {
    let r = request("/swagger-ui/index.html", Some("secret"), Some("unique-sid=abc"));
    assert!(matches!(auth_middleware(&r, "secret", None), AuthStep::Bypass));
    assert!(matches!(
        auth_middleware(&r, "secret", Some(&SessionLookup::StoreError)),
        AuthStep::Bypass
    ));
    let bare = request("/openapi.json", None, None);
    assert!(matches!(auth_middleware(&bare, "secret", None), AuthStep::Bypass));
}

#[test]
fn system_secret_authenticates_without_the_store() {
    let r = request("/users", Some("secret"), None);
    match auth_middleware(&r, "secret", None) {
        AuthStep::Authenticated(u) => assert!(same_user(&u, "system", "system", Some(true))),
        other => panic!("unexpected step {:?}", other),
    }
    let with_cookie = request("/users", Some("secret"), Some("unique-sid=abc"));
    for lookup in [SessionLookup::StoreError, SessionLookup::Missing, found("abc", "u-1", false)] {
        match auth_middleware(&with_cookie, "secret", Some(&lookup)) {
            AuthStep::Authenticated(u) => {
                assert!(same_user(&u, "system", "system", Some(true)))
            }
            other => panic!("unexpected step {:?}", other),
        }
    }
    let p = system_principal();
    assert!(same_user(&p, "system", "system", Some(true)));
}

#[test]
fn wrong_secret_falls_through_to_the_session() {
    let r = request("/users", Some("Secret"), None);
    assert!(matches!(
        auth_middleware(&r, "secret", None),
        AuthStep::Rejected(Rejection::Unauthorized)
    ));
    let longer = request("/users", Some("secret "), Some("unique-sid=abc"));
    match auth_middleware(&longer, "secret", None) {
        AuthStep::FindSession(t) => assert_eq!(t, "abc"),
        other => panic!("unexpected step {:?}", other),
    }
}

#[test]
fn empty_secret_matches_an_empty_header() {
    let r = request("/users", Some(""), None);
    assert!(matches!(auth_middleware(&r, "", None), AuthStep::Authenticated(_)));
    let none = request("/users", None, None);
    assert!(matches!(
        auth_middleware(&none, "", None),
        AuthStep::Rejected(Rejection::Unauthorized)
    ));
}

#[test]
fn missing_cookie_is_unauthorized() {
    let no_header = request("/users", None, None);
    assert!(matches!(
        auth_middleware(&no_header, "secret", None),
        AuthStep::Rejected(Rejection::Unauthorized)
    ));
    let other_cookie = request("/users", None, Some("theme=dark"));
    assert!(matches!(
        auth_middleware(&other_cookie, "secret", None),
        AuthStep::Rejected(Rejection::Unauthorized)
    ));
    assert!(matches!(
        auth_middleware(&other_cookie, "secret", Some(&found("abc", "u-1", true))),
        AuthStep::Rejected(Rejection::Unauthorized)
    ));
}

#[test]
fn session_cookie_asks_for_the_session_then_decides() {
    let r = request("/users/u-1", None, Some("theme=dark; unique-sid=tok-1"));
    match auth_middleware(&r, "secret", None) {
        AuthStep::FindSession(t) => assert_eq!(t, "tok-1"),
        other => panic!("unexpected step {:?}", other),
    }
    match auth_middleware(&r, "secret", Some(&found("tok-1", "u-1", true))) {
        AuthStep::Authenticated(u) => assert!(same_user(&u, "u-1", "tok-1", Some(false))),
        other => panic!("unexpected step {:?}", other),
    }
    assert!(matches!(
        auth_middleware(&r, "secret", Some(&SessionLookup::Missing)),
        AuthStep::Rejected(Rejection::Unauthorized)
    ));
    assert!(matches!(
        auth_middleware(&r, "secret", Some(&SessionLookup::StoreError)),
        AuthStep::Rejected(Rejection::InternalError)
    ));
}

#[test]
fn disabled_session_fails_like_a_missing_one() {
    let r = request("/users/u-1", None, Some("unique-sid=tok-1"));
    let disabled = auth_middleware(&r, "secret", Some(&found("tok-1", "u-1", false)));
    let missing = auth_middleware(&r, "secret", Some(&SessionLookup::Missing));
    assert!(matches!(disabled, AuthStep::Rejected(Rejection::Unauthorized)));
    assert!(matches!(missing, AuthStep::Rejected(Rejection::Unauthorized)));
    assert_eq!(
        authenticate_session(&found("tok-1", "u-1", false)).err(),
        authenticate_session(&SessionLookup::Missing).err()
    );
}

#[test]
fn authenticate_session_takes_ids_from_the_session() {
    let u = authenticate_session(&found("sid", "uid", true)).unwrap();
    assert!(same_user(&u, "uid", "sid", Some(false)));
    assert_eq!(
        authenticate_session(&SessionLookup::StoreError).err(),
        Some(Rejection::InternalError)
    );
    assert_eq!(authenticate_session(&SessionLookup::Missing).err(), Some(Rejection::Unauthorized));
    assert_eq!(
        authenticate_session(&found("sid", "uid", false)).err(),
        Some(Rejection::Unauthorized)
    );
}
