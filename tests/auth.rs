use rstidal::auth::{AuthError, LoginReply, Session, TidalCredentials, LOGIN_URL};
use rstidal::request::Method;

fn session(user_id: u32, session_id: &str, country_code: &str) -> Session {
    Session {
        user_id,
        session_id: session_id.to_owned(),
        country_code: country_code.to_owned(),
    }
}

fn pairs(v: &[(&str, &str)]) -> Vec<(String, String)> {
    v.iter().map(|(n, x)| (n.to_string(), x.to_string())).collect()
}

#[test]
fn test_credential_set_new() {
    let credentials = TidalCredentials::new("some_token");
    assert_eq!(credentials.token, "some_token".to_owned());
}

#[test]
fn test_credential_set_session_info() {
    let session = Session {
        user_id: 1234,
        session_id: "xq123".to_owned(),
        country_code: "US".to_owned(),
    };
    let credentials = TidalCredentials::new("some_token").session(Some(session));
    assert_eq!(credentials.session.is_some(), true);
}

#[test]
fn new_credentials_have_no_session() {
    let credentials = TidalCredentials::new("some_token");
    assert!(credentials.session.is_none());
}

#[test]
fn login_request_posts_form_with_token_query() {
    let credentials = TidalCredentials::new("some_token");
    let r = credentials.login_request("myuser@example.com", "somepawssowrd");
    assert_eq!(r.method, Method::Post);
    assert_eq!(r.url, LOGIN_URL);
    assert!(r.headers.is_empty());
    assert_eq!(r.query, pairs(&[("token", "some_token")]));
    assert_eq!(
        r.form,
        Some(pairs(&[("username", "myuser@example.com"), ("password", "somepawssowrd")]))
    );
}

#[test]
fn successful_login_attaches_the_returned_session() {
    let credentials = TidalCredentials::new("some_token");
    let reply = LoginReply::Answered {
        status: 200,
        session: Ok(session(123, "session-id-123", "US")),
    };
    let logged_in = credentials.create_session(reply);
    assert_eq!(logged_in.token, "some_token");
    let s = logged_in.session.unwrap();
    assert_eq!(s.user_id, 123);
    assert_eq!(s.session_id, "session-id-123");
    assert_eq!(s.country_code, "US");
}

#[test]
fn refused_login_leaves_session_absent() {
    let credentials = TidalCredentials::new("some_token");
    let reply = LoginReply::Answered {
        status: 401,
        session: Err("missing field `userId`".to_owned()),
    };
    let after = credentials.create_session(reply);
    assert!(after.session.is_none());
    assert_eq!(after.token, "some_token");
}

#[test]
fn malformed_login_body_leaves_session_absent() {
    let credentials = TidalCredentials::new("some_token");
    let reply = LoginReply::Answered {
        status: 200,
        session: Err("expected value at line 1 column 1".to_owned()),
    };
    assert!(credentials.create_session(reply).session.is_none());
}

#[test]
fn unreachable_login_leaves_session_absent() {
    let credentials = TidalCredentials::new("some_token");
    let reply = LoginReply::Unreachable {
        cause: "connection refused".to_owned(),
    };
    assert!(credentials.create_session(reply).session.is_none());
}

#[test]
fn failed_login_clears_an_earlier_session() {
    let credentials =
        TidalCredentials::new("some_token").session(Some(session(1, "old", "DE")));
    let reply = LoginReply::Answered {
        status: 500,
        session: Ok(session(2, "new", "US")),
    };
    assert!(credentials.create_session(reply).session.is_none());
}

#[test]
fn get_session_errors_name_the_failure() {
    let refused = Session::get_session(LoginReply::Answered {
        status: 401,
        session: Ok(session(1, "x", "US")),
    });
    assert_eq!(refused, Err(AuthError::CreateSessionFailed));
    let broken = Session::get_session(LoginReply::Answered {
        status: 200,
        session: Err("bad body".to_owned()),
    });
    assert_eq!(
        broken,
        Err(AuthError::AuthRequestFailed {
            source: "bad body".to_owned()
        })
    );
    let unreachable = Session::get_session(LoginReply::Unreachable {
        cause: "dns".to_owned(),
    });
    assert_eq!(
        unreachable,
        Err(AuthError::AuthRequestFailed {
            source: "dns".to_owned()
        })
    );
    let ok = Session::get_session(LoginReply::Answered {
        status: 299,
        session: Ok(session(7, "s", "NO")),
    });
    assert_eq!(ok, Ok(session(7, "s", "NO")));
}
