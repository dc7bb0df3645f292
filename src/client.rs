//! The authenticated request pipeline: the requests a session makes, and what
//! a failed answer means.

use vstd::prelude::*;

use crate::auth::{Session, TidalCredentials};
use crate::request::{
    append_pairs, is_success, lemma_without_key_omits, pair, pairs_of, success_status,
    without_key, ApiRequest, Method,
};
use crate::text::{
    ascii_chars, concat, has_prefix, header_text, header_value_text, starts_with, visible_ascii,
};

verus! {

/// The service's API root; a relative path is appended to it.
pub const API_BASE: &'static str = "https://api.tidalhifi.com/v1";

/// The `Origin` every request declares.
pub const ORIGIN: &'static str = "http://listen.tidal.com";

/// The query parameter that carries the session's country code.
pub const COUNTRY_CODE: &'static str = "countryCode";

/// The header that carries the session id.
pub const SESSION_HEADER: &'static str = "X-Tidal-SessionId";

/// The header that carries a conditional-update token.
pub const IF_NONE_MATCH: &'static str = "If-None-Match";

/// The error body the service sends with some refusals.
#[derive(Debug, PartialEq, Eq)]
pub enum ApiError {
    Regular { status: u16, message: String },
}

/// Why a call did not give a usable answer.
#[derive(Debug, PartialEq, Eq)]
pub enum ClientError {
    /// The service answered 401: the session is not (or no longer) valid.
    Unauthorized,
    /// The service answered 403 or 404 with a structured error body.
    Api(ApiError),
    /// A conditional-update token was missing or was not text.
    ParseEtag,
    /// A body did not have the expected shape; the parser's message.
    ParseJSON(String),
    /// The exchange could not be completed; the transport's message.
    Request(String),
    /// Any other failure status.
    StatusCode(u16),
}

/// A list of values of one kind, as list-returning endpoints wrap them.
#[derive(Debug)]
pub struct TidalItems<T> {
    pub items: Vec<T>,
}

/// The error that a failed answer with `status` stands for, given the body
/// read as a structured error (`None` when it is not one).
pub open spec fn classify(status: u16, body: Option<ApiError>) -> ClientError {
    if status == 401 {
        ClientError::Unauthorized
    } else if (status == 403 || status == 404) && body is Some {
        ClientError::Api(body.unwrap())
    } else {
        ClientError::StatusCode(status)
    }
}

impl ClientError {
    /// The error for a failed answer: 401 is `Unauthorized` whatever the
    /// body; 403 and 404 are `Api` with the body's values when the body is a
    /// structured error, `StatusCode` otherwise; any other status is
    /// `StatusCode`.
    pub fn from_response(status: u16, body: Option<ApiError>) -> (r: ClientError)
        ensures
            r == classify(status, body),
            status == 401 ==> r == ClientError::Unauthorized,
            (status == 403 || status == 404) ==> match body {
                Some(e) => r == ClientError::Api(e),
                None => r == ClientError::StatusCode(status),
            },
    {
        if status == 401 {
            ClientError::Unauthorized
        } else if status == 403 || status == 404 {
            match body {
                Some(e) => ClientError::Api(e),
                None => ClientError::StatusCode(status),
            }
        } else {
            ClientError::StatusCode(status)
        }
    }
}

/// The outcome of an answer with `status`: success for the 2xx class, the
/// classified error otherwise. `error_body` is the body read as a structured
/// error, `None` when it is not one.
pub fn check_status(status: u16, error_body: Option<ApiError>) -> (r: Result<(), ClientError>)
    ensures
        success_status(status) ==> r is Ok,
        !success_status(status) ==> r == Err::<(), ClientError>(classify(status, error_body)),
{
    if is_success(status) {
        Ok(())
    } else {
        Err(ClientError::from_response(status, error_body))
    }
}

/// The address a call to `url` goes to: `url` itself when it is absolute,
/// else `url` under `base`.
pub open spec fn full_url(base: Seq<char>, url: Seq<char>) -> Seq<char> {
    if has_prefix(url, "http"@) {
        url
    } else {
        base + url
    }
}

/// The headers of every call: the session id and the origin, then the
/// conditional-update token when there is one.
pub open spec fn call_headers(session_id: Seq<char>, etag: Option<Seq<char>>) -> Seq<
    (Seq<char>, Seq<char>),
> {
    let fixed = seq![(SESSION_HEADER@, session_id), ("Origin"@, ORIGIN@)];
    match etag {
        Some(e) => fixed.push((IF_NONE_MATCH@, e)),
        None => fixed,
    }
}

/// The query of every call: the country code first, then the caller's
/// parameters, except any that would replace the country code.
pub open spec fn call_query(country: Seq<char>, query: Option<Seq<(Seq<char>, Seq<char>)>>) -> Seq<
    (Seq<char>, Seq<char>),
> {
    seq![(COUNTRY_CODE@, country)] + match query {
        Some(q) => without_key(q, COUNTRY_CODE@),
        None => Seq::empty(),
    }
}

/// The conditional-update token an `etag` header yields: the header's
/// characters when it is present and reads as text, nothing otherwise.
pub open spec fn etag_token(header: Option<Seq<u8>>) -> Option<Seq<char>> {
    match header {
        Some(h) => if header_text(h) {
            Some(ascii_chars(h))
        } else {
            None
        },
        None => None,
    }
}

/// The bytes of a header, if present.
pub open spec fn header_bytes(header: Option<&[u8]>) -> Option<Seq<u8>> {
    match header {
        Some(h) => Some(h@),
        None => None,
    }
}

/// The token depends on the header alone: reading an unchanged resource's
/// `etag` twice gives the same token both times. Conversely, two reads that
/// give the same token saw the same header.
pub proof fn lemma_etag_idempotent(first: Option<Seq<u8>>, second: Option<Seq<u8>>)
    ensures
        first == second ==> etag_token(first) == etag_token(second),
        etag_token(first) is Some && etag_token(first) == etag_token(second) ==> first == second,
{
    if etag_token(first) is Some && etag_token(first) == etag_token(second) {
        let a = first.unwrap();
        let b = second.unwrap();
        assert(ascii_chars(a).len() == a.len());
        assert forall|i: int| 0 <= i < a.len() implies a[i] == b[i] by {
            assert(ascii_chars(a)[i] == ascii_chars(b)[i]);
            assert(header_text(a) && header_text(b));
            assert(visible_ascii(a[i]) && visible_ascii(b[i]));
        }
        assert(a =~= b);
    }
}

/// `r` is the call that `tidal` makes with `method` on `url`, sending
/// `query` with the country code, `form` as its body and `etag` as its
/// conditional-update token.
pub open spec fn is_call(
    r: ApiRequest,
    tidal: Tidal,
    method: Method,
    url: Seq<char>,
    query: Option<Seq<(Seq<char>, Seq<char>)>>,
    form: Option<Seq<(Seq<char>, Seq<char>)>>,
    etag: Option<Seq<char>>,
) -> bool {
    &&& r.method == method
    &&& r.url@ == full_url(tidal.base_url@, url)
    &&& pairs_of(r.headers) == call_headers(tidal.session.session_id@, etag)
    &&& pairs_of(r.query) == call_query(tidal.session.country_code@, query)
    &&& r.form.deep_view() == form
}

/// Every call sends the session's country code: whatever query the caller
/// passes, or none, the query of a request that the pipeline builds holds
/// `countryCode` with the session's country code, first, and no other
/// `countryCode` pair.
pub proof fn lemma_country_code_always_sent(
    r: ApiRequest,
    tidal: Tidal,
    method: Method,
    url: Seq<char>,
    query: Option<Seq<(Seq<char>, Seq<char>)>>,
    form: Option<Seq<(Seq<char>, Seq<char>)>>,
    etag: Option<Seq<char>>,
)
    requires
        is_call(r, tidal, method, url, query, form, etag),
    ensures
        pairs_of(r.query).len() >= 1,
        pairs_of(r.query)[0] == (COUNTRY_CODE@, tidal.session.country_code@),
        forall|i: int|
            1 <= i < pairs_of(r.query).len() ==> (#[trigger] pairs_of(r.query)[i]).0
                != COUNTRY_CODE@,
{
    let sent = pairs_of(r.query);
    let rest = match query {
        Some(q) => without_key(q, COUNTRY_CODE@),
        None => Seq::empty(),
    };
    if let Some(q) = query {
        lemma_without_key_omits(q, COUNTRY_CODE@);
    }
    assert forall|i: int| 1 <= i < sent.len() implies (#[trigger] sent[i]).0 != COUNTRY_CODE@ by {
        assert(sent[i] == rest[i - 1]);
    }
}

/// A client bound to one session. Every request it builds is authenticated
/// with that session.
#[derive(Debug)]
pub struct Tidal {
    pub token: String,
    pub session: Session,
    pub base_url: String,
}

impl Tidal {
    /// A client for `credentials`, which must hold a session, calling the
    /// service at its public address.
    pub fn new(credentials: TidalCredentials) -> (r: Tidal)
        requires
            credentials.session is Some,
        ensures
            r.token == credentials.token,
            credentials.session == Some(r.session),
            r.base_url@ == API_BASE@,
    {
        Tidal::with_base_url(credentials, API_BASE)
    }

    /// A client for `credentials`, which must hold a session, calling the
    /// service under `base_url`.
    pub fn with_base_url(credentials: TidalCredentials, base_url: &str) -> (r: Tidal)
        requires
            credentials.session is Some,
        ensures
            r.token == credentials.token,
            credentials.session == Some(r.session),
            r.base_url@ == base_url@,
    {
        let TidalCredentials { token, session } = credentials;
        Tidal { token, session: session.unwrap(), base_url: base_url.to_owned() }
    }

    /// The id of the session's user.
    pub fn user_id(&self) -> (r: u32)
        ensures
            r == self.session.user_id,
    {
        self.session.user_id
    }

    /// The request for one call: `method` on `url` (under the base address
    /// unless absolute), with the session's headers, the country code and
    /// the caller's `query`, `payload` as a form body when given, and `etag`
    /// as `If-None-Match` when given.
    pub fn request(
        &self,
        method: Method,
        url: &str,
        query: Option<&Vec<(String, String)>>,
        payload: Option<&Vec<(String, String)>>,
        etag: Option<String>,
    ) -> (r: ApiRequest)
        ensures
            is_call(r, *self, method, url@, query.deep_view(), payload.deep_view(), etag.deep_view()),
    {
        let full = if starts_with(url, "http") {
            url.to_owned()
        } else {
            concat(self.base_url.as_str(), url)
        };
        let mut headers: Vec<(String, String)> = Vec::new();
        headers.push(pair(SESSION_HEADER, self.session.session_id.as_str()));
        headers.push(pair("Origin", ORIGIN));
        let ghost fixed = pairs_of(headers);
        assert(fixed =~= seq![(SESSION_HEADER@, self.session.session_id@), ("Origin"@, ORIGIN@)]);
        match etag {
            Some(e) => {
                headers.push((IF_NONE_MATCH.to_owned(), e));
                assert(pairs_of(headers) =~= fixed.push((IF_NONE_MATCH@, e@)));
            },
            None => {},
        }
        let mut params: Vec<(String, String)> = Vec::new();
        params.push(pair(COUNTRY_CODE, self.session.country_code.as_str()));
        assert(pairs_of(params) =~= seq![(COUNTRY_CODE@, self.session.country_code@)]);
        let key = COUNTRY_CODE.to_owned();
        match query {
            Some(q) => append_pairs(&mut params, q, Some(&key)),
            None => {},
        }
        assert(pairs_of(params) =~= call_query(self.session.country_code@, query.deep_view()));
        let form = match payload {
            Some(p) => {
                let mut f: Vec<(String, String)> = Vec::new();
                append_pairs(&mut f, p, None);
                assert(pairs_of(f) =~= pairs_of(*p));
                Some(f)
            },
            None => None,
        };
        ApiRequest { method, url: full, headers, query: params, form }
    }

    /// The request that reads the resource at `url` to learn its current
    /// conditional-update token.
    pub fn etag(&self, url: &str) -> (r: ApiRequest)
        ensures
            is_call(r, *self, Method::Get, url@, None, None, None),
    {
        self.request(Method::Get, url, None, None, None)
    }

    /// The token carried by the answer's `etag` header (`header` is its raw
    /// value, `None` when absent): `ParseEtag` when the header is absent or
    /// does not read as text.
    pub fn etag_from_header(header: Option<&[u8]>) -> (r: Result<String, ClientError>)
        ensures
            match r {
                Ok(t) => etag_token(header_bytes(header)) == Some(t@),
                Err(e) => e == ClientError::ParseEtag && etag_token(header_bytes(header)) is None,
            },
    {
        match header {
            Some(h) => match header_value_text(h) {
                Some(t) => Ok(t),
                None => Err(ClientError::ParseEtag),
            },
            None => Err(ClientError::ParseEtag),
        }
    }

    /// The GET request for `url` with the caller's query `params`.
    pub fn get(&self, url: &str, params: &Vec<(String, String)>) -> (r: ApiRequest)
        ensures
            is_call(r, *self, Method::Get, url@, Some(pairs_of(*params)), None, None),
    {
        self.request(Method::Get, url, Some(params), None, None)
    }

    /// The POST request for `url` with `payload` as its form, conditional on
    /// `etag` when given.
    pub fn post(&self, url: &str, payload: &Vec<(String, String)>, etag: Option<String>) -> (r:
        ApiRequest)
        ensures
            is_call(r, *self, Method::Post, url@, None, Some(pairs_of(*payload)), etag.deep_view()),
    {
        self.request(Method::Post, url, None, Some(payload), etag)
    }

    /// The PUT request for `url` with `payload` as its form, conditional on
    /// `etag`.
    pub fn put(&self, url: &str, payload: &Vec<(String, String)>, etag: String) -> (r: ApiRequest)
        ensures
            is_call(r, *self, Method::Put, url@, None, Some(pairs_of(*payload)), Some(etag@)),
    {
        self.request(Method::Put, url, None, Some(payload), Some(etag))
    }
}

} // verus!
