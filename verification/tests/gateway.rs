use articles::error::ArticleFsError;
use articles::proxy::{forward_uri, handler, is_possible, BasicAuth, Credentials, Method, ProxyError};

fn admin() -> Credentials {
    Credentials { username: "root".to_string(), password: "secret".to_string() }
}

fn auth(user: &str, password: Option<&str>) -> Option<BasicAuth> {
    Some(BasicAuth { user: user.to_string(), password: password.map(|p| p.to_string()) })
}

#[test]
fn reads_are_open_to_everyone() {
    assert!(is_possible(&Method::Get, &None, &admin()));
    assert!(is_possible(&Method::Get, &auth("eve", Some("x")), &admin()));
}

#[test]
fn writes_need_the_admin() {
    for m in [Method::Post, Method::Put, Method::Delete] {
        assert!(is_possible(&m, &auth("root", Some("secret")), &admin()));
        assert!(!is_possible(&m, &auth("root", Some("wrong")), &admin()));
        assert!(!is_possible(&m, &auth("root", None), &admin()));
        assert!(!is_possible(&m, &auth("eve", Some("secret")), &admin()));
        assert!(!is_possible(&m, &None, &admin()));
    }
}

#[test]
fn other_methods_are_refused() {
    assert!(!is_possible(&Method::Other, &auth("root", Some("secret")), &admin()));
}

#[test]
fn forwarding_address() {
    assert_eq!(forward_uri("articles:3000", "/api/x", Some("/api/x?page=2")), "http://articles:3000//api/x?page=2");
    assert_eq!(forward_uri("articles:3000", "/api/x", None), "http://articles:3000//api/x");
}

#[test]
fn handler_forwards_or_refuses() {
    match handler(&Method::Get, &None, &admin(), "a:1", "/api/", None) {
        Ok(uri) => assert_eq!(uri, "http://a:1//api/"),
        Err(_) => panic!("expected forwarding"),
    }
    match handler(&Method::Delete, &None, &admin(), "a:1", "/api/t", None) {
        Err(e) => {
            assert!(matches!(e, ProxyError::NotAuthenticated));
            assert_eq!(e.to_string(), "Not authenticated");
        }
        Ok(_) => panic!("expected a refusal"),
    }
    assert_eq!(ProxyError::FailedOnProxy.to_string(), "Failed on proxy");
}

#[test]
fn fs_error_text() {
    assert_eq!(ArticleFsError::FailedToDelete.to_string(), "Failed to delete article from file system!");
}
