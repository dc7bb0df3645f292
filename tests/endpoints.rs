use rstidal::auth::{Session, TidalCredentials};
use rstidal::client::Tidal;
use rstidal::request::{ApiRequest, Method};
use rstidal::text::{decimal_string, header_value_text, join_decimals, starts_with};

const BASE: &str = "http://127.0.0.1:1234";

fn pairs(v: &[(&str, &str)]) -> Vec<(String, String)> {
    v.iter().map(|(n, x)| (n.to_string(), x.to_string())).collect()
}

fn client() -> Tidal {
    let session = Session {
        user_id: 1234,
        session_id: "session-id-1".to_owned(),
        country_code: "US".to_owned(),
    };
    Tidal::with_base_url(
        TidalCredentials {
            token: "some_token".to_owned(),
            session: Some(session),
        },
        BASE,
    )
}

fn assert_get(r: &ApiRequest, path: &str) {
    assert_eq!(r.method, Method::Get);
    assert_eq!(r.url, format!("{}{}", BASE, path));
    assert_eq!(r.query, pairs(&[("countryCode", "US")]));
    assert_eq!(r.form, None);
}

#[test]
fn artist_request_path_and_country_code() {
    let r = client().artists().get("37312");
    assert_get(&r, "/artists/37312");
}

#[test]
fn artist_albums_request() {
    assert_get(&client().artists().albums("37312"), "/artists/37312/albums");
}

#[test]
fn album_requests() {
    let tidal = client();
    assert_get(&tidal.albums().get("79914998"), "/albums/79914998");
    assert_get(&tidal.albums().tracks("79914998"), "/albums/79914998/tracks");
}

#[test]
fn playlist_requests() {
    let tidal = client();
    let id = "7ce7df87-6d37-4465-80db-84535a4e44a4";
    assert_get(&tidal.playlists().get(id), &format!("/playlists/{}", id));
    assert_get(&tidal.playlists().tracks(id), &format!("/playlists/{}/tracks", id));
    assert_get(&tidal.playlists().user_playlists(), "/users/1234/playlists");
}

#[test]
fn search_defaults_to_ten_results() {
    let r = client().searches().find("trivium", None);
    assert_eq!(r.method, Method::Get);
    assert_eq!(r.url, format!("{}/search", BASE));
    assert_eq!(
        r.query,
        pairs(&[("countryCode", "US"), ("query", "trivium"), ("limit", "10")])
    );
}

#[test]
fn search_with_limit() {
    let tidal = client();
    let expected = pairs(&[("countryCode", "US"), ("query", "trivium"), ("limit", "65535")]);
    assert_eq!(tidal.artists().search("trivium", Some(65535)).query, expected);
    assert_eq!(tidal.albums().search("trivium", Some(65535)).query, expected);
    assert_eq!(tidal.tracks().search("trivium", Some(65535)).query, expected);
    assert_eq!(tidal.playlists().search("trivium", Some(65535)).query, expected);
    let zero = tidal.searches().find("x", Some(0));
    assert_eq!(zero.query[2], ("limit".to_owned(), "0".to_owned()));
}

#[test]
fn create_playlist_request() {
    let r = client().playlists().create("something", "some desc");
    assert_eq!(r.method, Method::Post);
    assert_eq!(r.url, format!("{}/users/1234/playlists", BASE));
    assert_eq!(r.query, pairs(&[("countryCode", "US")]));
    assert_eq!(
        r.form,
        Some(pairs(&[("title", "something"), ("description", "some desc")]))
    );
    assert_eq!(r.headers.len(), 2);
}

#[test]
fn add_tracks_flow_carries_captured_etag() {
    let tidal = client();
    let id = "7ce7df87-6d37-4465-80db-84535a4e44a4";
    let first = tidal.playlists().items_etag(id);
    assert_get(&first, &format!("/playlists/{}/items", id));
    assert_eq!(first.headers.len(), 2);

    let etag = Tidal::etag_from_header(Some(b"123457689".as_slice())).unwrap();
    let ids = vec![79914998u32, 7915000u32];
    let post = tidal.playlists().add_tracks(id, &ids, false, etag);
    assert_eq!(post.method, Method::Post);
    assert_eq!(post.url, format!("{}/playlists/{}/items", BASE, id));
    assert_eq!(post.query, pairs(&[("countryCode", "US")]));
    assert_eq!(
        post.headers,
        pairs(&[
            ("X-Tidal-SessionId", "session-id-1"),
            ("Origin", "http://listen.tidal.com"),
            ("If-None-Match", "123457689")
        ])
    );
    assert_eq!(
        post.form,
        Some(pairs(&[("trackIds", "79914998,7915000"), ("onDupes", "FAIL")]))
    );

    let reload = tidal.playlists().get(id);
    assert_get(&reload, &format!("/playlists/{}", id));
}

#[test]
fn add_tracks_with_duplicates_allowed() {
    let post = client()
        .playlists()
        .add_tracks("p", &vec![5u32], true, "e".to_owned());
    assert_eq!(post.form, Some(pairs(&[("trackIds", "5"), ("onDupes", "ADD")])));
    let none = client().playlists().add_tracks("p", &Vec::new(), true, "e".to_owned());
    assert_eq!(none.form, Some(pairs(&[("trackIds", ""), ("onDupes", "ADD")])));
}

#[test]
fn decimal_notation() {
    assert_eq!(decimal_string(0), "0");
    assert_eq!(decimal_string(7), "7");
    assert_eq!(decimal_string(10), "10");
    assert_eq!(decimal_string(1234567890), "1234567890");
    assert_eq!(decimal_string(u64::MAX), "18446744073709551615");
}

#[test]
fn join_of_ids() {
    assert_eq!(join_decimals(&vec![]), "");
    assert_eq!(join_decimals(&vec![4294967295]), "4294967295");
    assert_eq!(join_decimals(&vec![1, 20, 300]), "1,20,300");
}

#[test]
fn prefix_test() {
    assert!(starts_with("https://x", "http"));
    assert!(starts_with("http", "http"));
    assert!(!starts_with("htt", "http"));
    assert!(!starts_with("/artists", "http"));
    assert!(starts_with("", ""));
}

#[test]
fn header_text_conversion() {
    assert_eq!(header_value_text(b"abc 123"), Some("abc 123".to_owned()));
    assert_eq!(header_value_text(&[0x1f]), None);
    assert_eq!(header_value_text(&[0xe2, 0x82, 0xac]), None);
}
