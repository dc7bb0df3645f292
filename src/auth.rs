//! Credentials, and the session that a login establishes.

use vstd::prelude::*;

use crate::request::{is_success, pair, pairs_of, success_status, ApiRequest, Method};

verus! {

/// The service's login endpoint.
pub const LOGIN_URL: &'static str = "https://api.tidalhifi.com/v1/login/username";

/// An established session, as the login endpoint returns it.
#[derive(Clone, Debug, PartialEq, Eq)]
pub struct Session {
    pub user_id: u32,
    pub session_id: String,
    pub country_code: String,
}

/// An application token, and the session obtained with it, if any.
#[derive(Clone, Debug)]
pub struct TidalCredentials {
    pub token: String,
    pub session: Option<Session>,
}

/// Why a login did not yield a session.
#[derive(Debug, PartialEq, Eq)]
pub enum AuthError {
    /// The exchange failed, or the answer's body was not a session.
    AuthRequestFailed { source: String },
    /// The service refused the login.
    CreateSessionFailed,
}

/// What came back from the login request.
#[derive(Debug)]
pub enum LoginReply {
    /// The exchange could not be completed; the transport's message.
    Unreachable { cause: String },
    /// The service answered with `status`; `session` is the body read as a
    /// session, or the reason it could not be read as one.
    Answered { status: u16, session: Result<Session, String> },
}

/// The session a login reply establishes, or why it establishes none.
pub open spec fn login_outcome(reply: LoginReply) -> Result<Session, AuthError> {
    match reply {
        LoginReply::Unreachable { cause } => Err(AuthError::AuthRequestFailed { source: cause }),
        LoginReply::Answered { status, session } => {
            if !success_status(status) {
                Err(AuthError::CreateSessionFailed)
            } else {
                match session {
                    Ok(s) => Ok(s),
                    Err(cause) => Err(AuthError::AuthRequestFailed { source: cause }),
                }
            }
        },
    }
}

/// The session a login reply establishes, if any.
pub open spec fn session_from(reply: LoginReply) -> Option<Session> {
    match login_outcome(reply) {
        Ok(s) => Some(s),
        Err(_) => None,
    }
}

impl Session {
    /// The session that `reply` establishes: the body's session when the
    /// service answered with success, an error otherwise.
    pub fn get_session(reply: LoginReply) -> (r: Result<Session, AuthError>)
        ensures
            r == login_outcome(reply),
    {
        match reply {
            LoginReply::Unreachable { cause } => Err(AuthError::AuthRequestFailed { source: cause }),
            LoginReply::Answered { status, session } => {
                if !is_success(status) {
                    Err(AuthError::CreateSessionFailed)
                } else {
                    match session {
                        Ok(s) => Ok(s),
                        Err(cause) => Err(AuthError::AuthRequestFailed { source: cause }),
                    }
                }
            },
        }
    }
}

impl TidalCredentials {
    /// Credentials holding `token` and no session.
    pub fn new(token: &str) -> (r: Self)
        ensures
            r.token@ == token@,
            r.session is None,
    {
        TidalCredentials { token: token.to_owned(), session: None }
    }

    /// These credentials with their session replaced by `session`.
    pub fn session(self, session: Option<Session>) -> (r: Self)
        ensures
            r.token == self.token,
            r.session == session,
    {
        TidalCredentials { token: self.token, session }
    }

    /// The login request for `username` and `password`: a form POST to the
    /// login endpoint, with the application token as the `token` query
    /// parameter. A token is needed to log in.
    pub fn login_request(&self, username: &str, password: &str) -> (r: ApiRequest)
        requires
            self.token@.len() > 0,
        ensures
            r.method == Method::Post,
            r.url@ == LOGIN_URL@,
            pairs_of(r.headers) == Seq::<(Seq<char>, Seq<char>)>::empty(),
            pairs_of(r.query) == seq![("token"@, self.token@)],
            r.form.deep_view() == Some(seq![("username"@, username@), ("password"@, password@)]),
    {
        let mut query: Vec<(String, String)> = Vec::new();
        query.push(pair("token", self.token.as_str()));
        let mut form: Vec<(String, String)> = Vec::new();
        form.push(pair("username", username));
        form.push(pair("password", password));
        let r = ApiRequest {
            method: Method::Post,
            url: LOGIN_URL.to_owned(),
            headers: Vec::new(),
            query,
            form: Some(form),
        };
        assert(pairs_of(r.headers) =~= Seq::<(Seq<char>, Seq<char>)>::empty());
        assert(pairs_of(r.query) =~= seq![("token"@, self.token@)]);
        assert(form.deep_view() =~= seq![("username"@, username@), ("password"@, password@)]);
        r
    }

    /// These credentials after the login that `reply` answers: the session
    /// is the one the service returned when it answered with success and a
    /// session body, and absent after any failure. The token is kept.
    pub fn create_session(self, reply: LoginReply) -> (r: Self)
        ensures
            r.token == self.token,
            r.session == session_from(reply),
            reply matches LoginReply::Answered { status, session: Ok(s) } ==> (success_status(status)
                ==> r.session == Some(s)),
            !(reply matches LoginReply::Answered { status, session: Ok(_) } && success_status(
                status,
            )) ==> r.session is None,
    {
        let session = match Session::get_session(reply) {
            Ok(s) => Some(s),
            Err(_) => None,
        };
        self.session(session)
    }
}

} // verus!
