use digest_negotiator::Credentials;
use digest_negotiator::Digest;
use digest_negotiator::Error;
use digest_negotiator::HeaderText;
use digest_negotiator::State;
use digest_negotiator::select_challenge;

fn target() -> url::Url {
    url::Url::parse("https://cam.local/onvif/device_service").unwrap()
}

fn creds() -> Option<Credentials> {
    Some(Credentials {
        username: String::from("alice"),
        password: String::from("secret"),
    })
}

fn response_401(headers: &[&[u8]]) -> reqwest::Response {
    let mut builder = http::Response::builder().status(401);
    for h in headers {
        builder = builder.header(
            "WWW-Authenticate",
            http::HeaderValue::from_bytes(h).unwrap(),
        );
    }
    reqwest::Response::from(builder.body("").unwrap())
}

fn request() -> reqwest::RequestBuilder {
    reqwest::Client::new().post("https://cam.local/onvif/device_service")
}

fn authorization_of(r: Result<reqwest::RequestBuilder, Error>) -> String {
    let built = r.unwrap().build().unwrap();
    built
        .headers()
        .get(reqwest::header::AUTHORIZATION)
        .expect("Authorization header missing")
        .to_str()
        .unwrap()
        .to_string()
}

const MD5_CHALLENGE: &str = "Digest realm=\"r\", nonce=\"n\", algorithm=MD5, qop=\"auth\"";
const SHA_CHALLENGE: &str = "Digest realm=\"r\", nonce=\"n\", algorithm=SHA-256, qop=\"auth\"";

fn valid(s: &str) -> HeaderText {
    HeaderText::Valid(String::from(s))
}

// One 401 retains the headers, a second is terminal, later ones change nothing.
#[test]
fn notify_401_sequence() {
    let mut d = Digest::new(&target(), &creds());
    assert!(matches!(d.state, State::Initial));
    assert!(!d.is_failed());

    d.record_401(vec![valid(MD5_CHALLENGE)]);
    match &d.state {
        State::Got401(hs) => {
            assert_eq!(hs.len(), 1);
            assert!(matches!(&hs[0], HeaderText::Valid(s) if s == MD5_CHALLENGE));
        }
        other => panic!("expected one retained response, got {:?}", other),
    }
    assert!(!d.is_failed());

    d.record_401(vec![valid(SHA_CHALLENGE)]);
    assert!(matches!(d.state, State::Got401Twice));
    assert!(d.is_failed());

    d.record_401(vec![]);
    d.record_401(vec![valid(MD5_CHALLENGE)]);
    assert!(matches!(d.state, State::Got401Twice));
    assert!(d.is_failed());
}

// The same sequence through real responses.
#[test]
fn notify_401_sequence_with_responses() {
    let mut d = Digest::new(&target(), &creds());
    d.set_401(response_401(&[MD5_CHALLENGE.as_bytes()]));
    match &d.state {
        State::Got401(hs) => {
            assert_eq!(hs.len(), 1);
            assert!(matches!(&hs[0], HeaderText::Valid(s) if s == MD5_CHALLENGE));
        }
        other => panic!("expected one retained response, got {:?}", other),
    }
    d.set_401(response_401(&[MD5_CHALLENGE.as_bytes()]));
    assert!(d.is_failed());
    d.set_401(response_401(&[]));
    assert!(matches!(d.state, State::Got401Twice));
}

// A fresh negotiator passes the request through untouched and never fails.
#[test]
fn fresh_negotiator_leaves_request_unchanged() {
    let d = Digest::new(&target(), &creds());
    let built = d.add_headers(request()).unwrap().build().unwrap();
    assert!(built.headers().get(reqwest::header::AUTHORIZATION).is_none());
    assert_eq!(built.method(), &reqwest::Method::POST);
    assert_eq!(built.url().as_str(), "https://cam.local/onvif/device_service");

    let no_creds = Digest::new(&target(), &None);
    assert!(no_creds.add_headers(request()).is_ok());
}

// After the terminal state is reached, attaching always fails with InvalidState.
#[test]
fn failed_negotiator_rejects_attach() {
    let mut d = Digest::new(&target(), &creds());
    d.set_401(response_401(&[MD5_CHALLENGE.as_bytes()]));
    d.set_401(response_401(&[MD5_CHALLENGE.as_bytes()]));
    assert!(d.is_failed());
    assert!(matches!(d.add_headers(request()), Err(Error::InvalidState)));

    let mut bare = Digest::new(&target(), &None);
    bare.record_401(vec![]);
    bare.record_401(vec![]);
    assert!(matches!(bare.add_headers(request()), Err(Error::InvalidState)));
}

// One 401 but no credentials: NoCredentials.
#[test]
fn missing_credentials() {
    let mut d = Digest::new(&target(), &None);
    d.set_401(response_401(&[MD5_CHALLENGE.as_bytes()]));
    assert!(matches!(d.add_headers(request()), Err(Error::NoCredentials)));
}

// One 401 without any WWW-Authenticate header: Digest error citing the
// missing header.
#[test]
fn missing_www_authenticate_header() {
    let mut d = Digest::new(&target(), &creds());
    d.set_401(response_401(&[]));
    match d.add_headers(request()) {
        Err(Error::Digest(m)) => assert_eq!(m, "No www-authenticate digest header"),
        other => panic!("expected the missing-header error, got {:?}", other),
    }
}

// A header whose value matches no tier gives the same missing-header error.
#[test]
fn unrelated_header_matches_no_tier() {
    let mut d = Digest::new(&target(), &creds());
    d.set_401(response_401(&[b"Basic realm=\"r\""]));
    match d.add_headers(request()) {
        Err(Error::Digest(m)) => assert_eq!(m, "No www-authenticate digest header"),
        other => panic!("expected the missing-header error, got {:?}", other),
    }
}

// The SHA-family offer wins over the MD5 offer whatever their order.
#[test]
fn sha_preferred_over_md5_in_either_order() {
    let first = select_challenge(&vec![valid(MD5_CHALLENGE), valid(SHA_CHALLENGE)]);
    assert_eq!(first.unwrap().unwrap(), SHA_CHALLENGE);
    let second = select_challenge(&vec![valid(SHA_CHALLENGE), valid(MD5_CHALLENGE)]);
    assert_eq!(second.unwrap().unwrap(), SHA_CHALLENGE);
}

// The tier match is case-insensitive against the whole header value.
#[test]
fn tier_match_is_case_insensitive() {
    let shouting = "DIGEST REALM=\"R\", NONCE=\"N\", ALGORITHM=SHA-256";
    let r = select_challenge(&vec![valid(MD5_CHALLENGE), valid(shouting)]);
    assert_eq!(r.unwrap().unwrap(), shouting);
}

// Within one tier the first occurrence in original order wins.
#[test]
fn first_match_wins_within_a_tier() {
    let other_md5 = "Digest realm=\"other\", nonce=\"n2\", algorithm=MD5";
    let r = select_challenge(&vec![valid(MD5_CHALLENGE), valid(other_md5)]);
    assert_eq!(r.unwrap().unwrap(), MD5_CHALLENGE);
}

// An MD5 digest offer is preferred over one that only mentions "digest".
#[test]
fn md5_preferred_over_plain_digest() {
    let plain = "Digest realm=\"r\", nonce=\"n\"";
    let r = select_challenge(&vec![valid(plain), valid(MD5_CHALLENGE)]);
    assert_eq!(r.unwrap().unwrap(), MD5_CHALLENGE);
    assert_eq!(select_challenge(&vec![]).unwrap(), None);
}

// An occurrence that is not valid text aborts the scan with its message
// when the scan reaches it before a match; one after the match is never read.
#[test]
fn unreadable_header_aborts_scan() {
    let bad = HeaderText::Invalid(String::from("failed to convert header to a str"));
    let r = select_challenge(&vec![bad, valid(SHA_CHALLENGE)]);
    assert_eq!(r.unwrap_err(), "failed to convert header to a str");

    let bad_after = HeaderText::Invalid(String::from("failed to convert header to a str"));
    let r2 = select_challenge(&vec![valid(SHA_CHALLENGE), bad_after]);
    assert_eq!(r2.unwrap().unwrap(), SHA_CHALLENGE);
}

// End to end: a header with bytes that are not visible ASCII surfaces as a
// Digest error carrying the conversion message, not the missing-header one.
#[test]
fn unreadable_header_end_to_end() {
    let mut d = Digest::new(&target(), &creds());
    d.set_401(response_401(&[b"\xffDigest realm=\"r\", nonce=\"n\""]));
    match d.add_headers(request()) {
        Err(Error::Digest(m)) => assert_ne!(m, "No www-authenticate digest header"),
        other => panic!("expected a Digest error, got {:?}", other),
    }
}

// The stronger algorithm is used for the computed header: end to end the
// Authorization value names SHA-256, whatever the order of the offers.
#[test]
fn sha_selected_end_to_end() {
    for headers in [
        [MD5_CHALLENGE.as_bytes(), SHA_CHALLENGE.as_bytes()],
        [SHA_CHALLENGE.as_bytes(), MD5_CHALLENGE.as_bytes()],
    ] {
        let mut d = Digest::new(&target(), &creds());
        d.set_401(response_401(&headers));
        let auth = authorization_of(d.add_headers(request()));
        assert!(auth.contains("algorithm=SHA-256"), "{}", auth);
    }
}

// A header that only carries the literal "Digest", with no algorithm token,
// is still selected (third tier) and yields a response string.
#[test]
fn plain_digest_header_yields_response() {
    let mut d = Digest::new(&target(), &creds());
    d.set_401(response_401(&[b"Digest realm=\"r\", nonce=\"n\""]));
    let auth = authorization_of(d.add_headers(request()));
    assert!(auth.starts_with("Digest "), "{}", auth);
    assert!(auth.contains("username=\"alice\""), "{}", auth);
}

// The round trip of the whole exchange: construct, one 401 with an MD5
// challenge, attach; the Authorization value binds user and path.
#[test]
fn round_trip_md5_challenge() {
    let mut d = Digest::new(&target(), &creds());
    d.set_401(response_401(&[
        b"Digest realm=\"onvif\", nonce=\"abc123\", algorithm=MD5, qop=\"auth\"",
    ]));
    assert!(!d.is_failed());
    let auth = authorization_of(d.add_headers(request()));
    assert!(auth.starts_with("Digest username=\"alice\""), "{}", auth);
    assert!(auth.contains("uri=\"/onvif/device_service\""), "{}", auth);
}

// A challenge the parsing library rejects surfaces as a Digest error with
// the underlying message.
#[test]
fn unparseable_challenge_surfaces_message() {
    let mut d = Digest::new(&target(), &creds());
    d.set_401(response_401(&[b"Digest realm=\"r\""]));
    match d.add_headers(request()) {
        Err(Error::Digest(m)) => assert_ne!(m, "No www-authenticate digest header"),
        Ok(_) => panic!("expected the parse failure to surface"),
        other => panic!("expected a Digest error, got {:?}", other),
    }
}

// Construction stores clones of the URL and the credentials.
#[test]
fn construction_stores_clones() {
    let url = target();
    let c = creds();
    let d = Digest::new(&url, &c);
    assert_eq!(d.uri, url);
    match (&d.creds, &c) {
        (Some(a), Some(b)) => {
            assert_eq!(a.username, b.username);
            assert_eq!(a.password, b.password);
        }
        _ => panic!("credentials were not stored"),
    }
}
