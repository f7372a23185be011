use wilma::client::{Action, Event, Handshake, Phase};
use wilma::wilma::IndexResponse;
use wilma::{Credentials, Error};

fn credentials() -> Credentials<'static> {
    Credentials { username: "user", password: "pass", server: "example.inschool.fi" }
}

#[test]
fn handshake_reaches_base_path() {
    let (mut h, first) = Handshake::start(&credentials());
    match first {
        Action::FetchIndex { url } => assert_eq!(url, "https://example.inschool.fi/index_json"),
        other => panic!("unexpected {:?}", other),
    }
    let ix = IndexResponse::new("ok".to_string(), "abc".to_string(), 11);
    match h.step(Event::Index(ix)) {
        Action::SubmitLogin { url, form } => {
            assert_eq!(url, "https://example.inschool.fi/login");
            let expected: Vec<(String, String)> = vec![
                ("Login".to_string(), "user".to_string()),
                ("Password".to_string(), "pass".to_string()),
                ("SESSIONID".to_string(), "abc".to_string()),
                ("CompleteJson".to_string(), String::new()),
            ];
            assert_eq!(form, expected);
        }
        other => panic!("unexpected {:?}", other),
    }
    let cookies = vec![
        ("other".to_string(), "1".to_string()),
        ("Wilma2SID".to_string(), "xyz".to_string()),
    ];
    match h.step(Event::LoginCookies(cookies)) {
        Action::OpenSession { cookie, origin, url } => {
            assert_eq!(cookie, "Wilma2SID=xyz");
            assert_eq!(origin, "https://example.inschool.fi");
            assert_eq!(url, "https://example.inschool.fi");
        }
        other => panic!("unexpected {:?}", other),
    }
    let page = "<html>\n<a class=\"text-style-link\" href=\"/5/profile\">Name</a>\n</html>";
    match h.step(Event::IdentityPage(page.to_string())) {
        Action::Finish { base_url } => {
            assert_eq!(base_url, "https://example.inschool.fi/5/profile")
        }
        other => panic!("unexpected {:?}", other),
    }
    assert_eq!(h.phase(), Phase::Ready);
}

#[test]
fn handshake_without_session_cookie_is_invalid_credentials() {
    let (mut h, _) = Handshake::start(&credentials());
    let ix = IndexResponse::new("ok".to_string(), "abc".to_string(), 11);
    h.step(Event::Index(ix));
    let cookies = vec![("other".to_string(), "1".to_string())];
    match h.step(Event::LoginCookies(cookies)) {
        Action::Fail { error } => assert_eq!(error, Error::InvalidCredentials),
        other => panic!("unexpected {:?}", other),
    }
    assert_eq!(h.phase(), Phase::Failed);
}

#[test]
fn handshake_failures() {
    let (mut h, _) = Handshake::start(&credentials());
    match h.step(Event::NetworkFailure) {
        Action::Fail { error } => assert_eq!(error, Error::Network),
        other => panic!("unexpected {:?}", other),
    }
    let (mut h, _) = Handshake::start(&credentials());
    match h.step(Event::IdentityPage(String::new())) {
        Action::Fail { error } => assert_eq!(error, Error::MalformedResponse),
        other => panic!("unexpected {:?}", other),
    }
    let (mut h, _) = Handshake::start(&credentials());
    h.step(Event::Index(IndexResponse::new(String::new(), "s".to_string(), 1)));
    h.step(Event::LoginCookies(vec![("Wilma2SID".to_string(), "v".to_string())]));
    match h.step(Event::IdentityPage("<html></html>".to_string())) {
        Action::Fail { error } => assert_eq!(error, Error::LineNotFound),
        other => panic!("unexpected {:?}", other),
    }
    assert_eq!(h.phase(), Phase::Failed);
}
