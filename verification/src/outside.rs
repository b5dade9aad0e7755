//! Trusted declarations for the outside crates the negotiator relies on:
//! `url` for the target URL, `reqwest` for the 401 response and the outgoing
//! request, and `digest_auth` for challenge parsing and the digest response
//! computation. Verus believes the contracts stated here without proof; each
//! doc comment names the outside function relied on.

use crate::scan::HeaderText;
use crate::scan::ascii_seq;
use crate::scan::ascii_texts;
use vstd::prelude::*;

verus! {

#[verifier::external_type_specification]
#[verifier::external_body]
pub struct ExUrl(url::Url);

#[verifier::external_type_specification]
#[verifier::external_body]
pub struct ExResponse(reqwest::Response);

#[verifier::external_type_specification]
#[verifier::external_body]
pub struct ExRequestBuilder(reqwest::RequestBuilder);

/// Relies on `url::Url::clone`, which `url` derives: the clone carries the
/// same serialization and component positions, so it is an equal URL value.
pub assume_specification[ <url::Url as Clone>::clone ](u: &url::Url) -> (r: url::Url)
    ensures
        r == *u,
;

/// Relies on `url::Url::path`: the path component of the URL, without the
/// query, the fragment or the host. The URL value is opaque here, so nothing
/// more is stated of the result.
#[verifier::external_body]
pub(crate) fn url_path(u: &url::Url) -> String {
    u.path().to_string()
}

/// Relies on `reqwest::Response::headers`, `http::HeaderMap::get_all` and
/// `http::HeaderValue::to_str`: the value of every `WWW-Authenticate`
/// occurrence on the response, in original order, each as text or, where its
/// bytes are not visible ASCII, as the failed conversion's message. Since
/// `to_str` succeeds only on visible ASCII bytes, every text it yields is
/// ASCII. The response value is opaque here, so nothing more is stated.
#[verifier::external_body]
pub(crate) fn www_authenticate_values(response: &reqwest::Response) -> (r: Vec<HeaderText>)
    ensures
        ascii_texts(r@),
{
    response
        .headers()
        .get_all(reqwest::header::WWW_AUTHENTICATE)
        .iter()
        .map(|v| match v.to_str() {
            Ok(s) => HeaderText::Valid(s.to_string()),
            Err(e) => HeaderText::Invalid(e.to_string()),
        })
        .collect()
}

// Whether `digest_auth` accepts `s` as a Digest challenge. Acceptance is
// decided by `digest_auth::parse` from the challenge text alone; after a
// successful parse the response computation cannot fail, so this names the
// success of the whole delegated computation.
pub uninterp spec fn digest_parse_ok(s: Seq<char>) -> bool;

/// Relies on `digest_auth::parse`, `digest_auth::AuthContext::new` and
/// `digest_auth::WwwAuthenticateHeader::respond`: parses the selected
/// challenge, computes the digest response for the credentials, the request
/// path and the fixed POST method, and renders it. Whether `parse` accepts
/// the challenge is a function of its text alone, named `digest_parse_ok`,
/// and `respond` cannot fail on what `parse` accepted, so the call succeeds
/// exactly on accepted challenges; `Display` for
/// `digest_auth::AuthorizationHeader` writes "Digest " before anything else.
/// The computed value is not a function of the arguments alone (a random
/// client nonce may enter it), so no more is stated of it. `parse` indexes
/// the challenge by character positions but slices it by byte offsets, so it
/// is called on ASCII text only, where the two agree and it cannot panic.
#[verifier::external_body]
pub(crate) fn compute_digest_response(
    challenge: &str,
    username: &str,
    password: &str,
    path: &str,
) -> (r: Result<String, String>)
    requires
        ascii_seq(challenge@),
    ensures
        r is Ok <==> digest_parse_ok(challenge@),
        r matches Ok(s) ==> s@.len() >= 7 && s@.subrange(0, 7) == "Digest "@,
{
    let mut context = digest_auth::AuthContext::new(username, password, path);
    context.method = digest_auth::HttpMethod::POST;
    match digest_auth::parse(challenge) {
        Err(e) => Err(e.to_string()),
        Ok(mut header) => match header.respond(&context) {
            Err(e) => Err(e.to_string()),
            Ok(answer) => Ok(answer.to_string()),
        },
    }
}

/// Relies on `reqwest::RequestBuilder::header` with
/// `http::header::AUTHORIZATION`: the builder with the computed value set as
/// its `Authorization` header. The builder value is opaque here, so nothing
/// more is stated of the result.
#[verifier::external_body]
pub(crate) fn with_authorization(
    request: reqwest::RequestBuilder,
    value: String,
) -> reqwest::RequestBuilder {
    request.header(reqwest::header::AUTHORIZATION, value)
}

} // verus!
