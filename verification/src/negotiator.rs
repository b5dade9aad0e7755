//! The per-request authentication negotiator and its three-state machine.
//!
//! One negotiator is scoped to one logical request. The state only moves
//! forward: no challenge seen, one 401 retained, terminally failed. This
//! bounds the exchange to exactly one authenticated retry, so a misbehaving
//! server cannot draw the caller into a 401/retry loop.

use crate::outside::compute_digest_response;
use crate::outside::digest_parse_ok;
use crate::outside::url_path;
use crate::outside::with_authorization;
use crate::outside::www_authenticate_values;
use crate::scan::HeaderText;
use crate::scan::ascii_texts;
use crate::scan::lemma_selected_challenge_ascii;
use crate::scan::select_challenge;
use crate::scan::selected_challenge;
use vstd::prelude::*;
use vstd::string::*;

verus! {

/// The ways an attempt to attach the `Authorization` header can fail.
#[derive(Debug)]
pub enum Error {
    /// `add_headers` was called after the negotiator already reached its
    /// terminal failed state; the caller must check `is_failed` first.
    InvalidState,
    /// Credentials are required to answer the challenge but none were given.
    NoCredentials,
    /// The challenge header is missing, not readable as text, not parseable,
    /// or the digest computation failed; carries the underlying message.
    Digest(String),
}

/// The username and password used to answer a Digest challenge.
#[derive(Debug)]
pub struct Credentials {
    pub username: String,
    pub password: String,
}

impl Clone for Credentials {
    fn clone(&self) -> (r: Self)
        ensures
            r == *self,
    {
        Credentials { username: self.username.clone(), password: self.password.clone() }
    }
}

/// How far the challenge/response handshake of one logical request has come.
#[derive(Debug)]
pub enum State {
    /// No challenge seen yet: the first attempt is sent bare.
    Initial,
    /// Exactly one 401 received; what the negotiator reads from it — the
    /// values of its `WWW-Authenticate` occurrences, in order — is retained.
    Got401(Vec<HeaderText>),
    /// Two 401s received: the credentials were rejected or the negotiation
    /// failed. Terminal; nothing is retained.
    Got401Twice,
}

/// The state reached after one more 401 whose retained header values are `hs`.
pub open spec fn notified(s: State, hs: Vec<HeaderText>) -> State {
    match s {
        State::Initial => State::Got401(hs),
        _ => State::Got401Twice,
    }
}

/// The authentication negotiator for one logical request: the target URL and
/// the credentials, fixed at construction, plus the handshake state.
#[derive(Debug)]
pub struct Digest {
    pub creds: Option<Credentials>,
    pub uri: url::Url,
    pub state: State,
}

impl Digest {
    /// A fresh negotiator for one logical request: stores a clone of the URL
    /// and of the optional credentials; no challenge seen yet.
    pub fn new(uri: &url::Url, creds: &Option<Credentials>) -> (r: Self)
        ensures
            r.uri == *uri,
            r.creds == *creds,
            r.state is Initial,
    {
        let creds_clone: Option<Credentials> = match creds {
            Some(c) => Some(c.clone()),
            None => None,
        };
        Digest { creds: creds_clone, uri: uri.clone(), state: State::Initial }
    }

    /// Advances the state machine on one more 401: the first 401's
    /// `WWW-Authenticate` values are retained; a second 401 makes the state
    /// terminal, dropping them; afterwards nothing changes any more. The
    /// credentials and the URL are never touched.
    pub fn set_401(&mut self, response: reqwest::Response)
        ensures
            old(self).state is Initial ==> final (self).state is Got401 && ascii_texts(
                final (self).state->Got401_0@,
            ),
            !(old(self).state is Initial) ==> final (self).state is Got401Twice,
            final (self).creds == old(self).creds,
            final (self).uri == old(self).uri,
    {
        let headers = www_authenticate_values(&response);
        self.record_401(headers);
    }

    /// The same transition on already-read header values; `set_401` reads
    /// them from the response and calls this, so this part holds for every
    /// value the response can yield.
    pub fn record_401(&mut self, headers: Vec<HeaderText>)
        ensures
            final (self).state == notified(old(self).state, headers),
            final (self).creds == old(self).creds,
            final (self).uri == old(self).uri,
    {
        match self.state {
            State::Initial => {
                self.state = State::Got401(headers);
            },
            State::Got401(_) => {
                self.state = State::Got401Twice;
            },
            State::Got401Twice => {},
        }
    }

    /// True iff the negotiator reached its terminal failed state: two 401s
    /// were received for this logical request. The caller checks this before
    /// attempting a further send.
    pub fn is_failed(&self) -> (r: bool)
        ensures
            r == (self.state is Got401Twice),
    {
        matches!(self.state, State::Got401Twice)
    }

    /// The per-attempt decision. Before any 401 the request is returned
    /// unchanged and the call never fails. In the terminal state it fails
    /// with `InvalidState`. After exactly one 401 it requires credentials
    /// (`NoCredentials` otherwise), selects a challenge among the retained
    /// `WWW-Authenticate` values by algorithm preference, fails with a
    /// `Digest` error citing the missing header when no value matches any
    /// tier — or citing the conversion message when an unreadable value was
    /// reached first — and otherwise attaches the computed digest response as
    /// the request's `Authorization` header; a parse or compute failure of
    /// the challenge library surfaces as `Digest` with its message.
    pub fn add_headers(&self, request: reqwest::RequestBuilder) -> (r: Result<
        reqwest::RequestBuilder,
        Error,
    >)
        requires
            self.state is Got401 ==> ascii_texts(self.state->Got401_0@),
        ensures
            self.state is Initial ==> r == Ok::<reqwest::RequestBuilder, Error>(request),
            self.state is Got401Twice ==> r == Err::<reqwest::RequestBuilder, Error>(
                Error::InvalidState,
            ),
            self.state is Got401 && self.creds is None ==> r == Err::<
                reqwest::RequestBuilder,
                Error,
            >(Error::NoCredentials),
            self.state is Got401 && self.creds is Some ==> match selected_challenge(
                self.state->Got401_0@,
            ) {
                Err(m) => r matches Err(e) && e matches Error::Digest(d) && d@ == m,
                Ok(None) => r matches Err(e) && e matches Error::Digest(d) && d@
                    == "No www-authenticate digest header"@,
                Ok(Some(h)) => (r is Ok <==> digest_parse_ok(h)) && (r matches Err(e)
                    ==> e is Digest),
            },
    {
        match &self.state {
            State::Initial => Ok(request),
            State::Got401Twice => Err(Error::InvalidState),
            State::Got401(headers) => match &self.creds {
                None => Err(Error::NoCredentials),
                Some(creds) => {
                    proof {
                        lemma_selected_challenge_ascii(headers@);
                    }
                    match select_challenge(headers) {
                    Err(m) => Err(Error::Digest(m)),
                    Ok(None) => Err(
                        Error::Digest(String::from_str("No www-authenticate digest header")),
                    ),
                    Ok(Some(challenge)) => {
                        let path = url_path(&self.uri);
                        match compute_digest_response(
                            challenge.as_str(),
                            creds.username.as_str(),
                            creds.password.as_str(),
                            path.as_str(),
                        ) {
                            Err(m) => Err(Error::Digest(m)),
                            Ok(value) => Ok(with_authorization(request, value)),
                        }
                    },
                }
                },
            },
        }
    }
}

/// The state after a whole sequence of 401 notifications, oldest first.
pub open spec fn notified_all(s: State, hss: Seq<Vec<HeaderText>>) -> State
    decreases hss.len(),
{
    if hss.len() == 0 {
        s
    } else {
        notified_all(notified(s, hss[0]), hss.drop_first())
    }
}

/// The state never regresses: once terminally failed, no sequence of further
/// 401 notifications changes anything.
pub proof fn lemma_terminal_state_stays(s: State, hss: Seq<Vec<HeaderText>>)
    requires
        s is Got401Twice,
    ensures
        notified_all(s, hss) == s,
    decreases hss.len(),
{
    if hss.len() > 0 {
        assert(notified(s, hss[0]) == s);
        lemma_terminal_state_stays(s, hss.drop_first());
    }
}

/// At most one retry per logical request: after exactly one 401 exactly its
/// header values are retained; after two or more — and only then — the
/// negotiator is terminally failed, retaining nothing.
pub proof fn lemma_notify_401_sequence(hss: Seq<Vec<HeaderText>>)
    ensures
        hss.len() == 1 ==> notified_all(State::Initial, hss) == State::Got401(hss[0]),
        hss.len() >= 2 ==> notified_all(State::Initial, hss) == State::Got401Twice,
        notified_all(State::Initial, hss) is Got401Twice <==> hss.len() >= 2,
{
    if hss.len() == 1 {
        assert(notified_all(State::Initial, hss) == notified_all(
            State::Got401(hss[0]),
            hss.drop_first(),
        ));
        assert(notified_all(State::Got401(hss[0]), hss.drop_first()) == State::Got401(hss[0]));
    } else if hss.len() >= 2 {
        let rest = hss.drop_first();
        assert(notified_all(State::Initial, hss) == notified_all(State::Got401(hss[0]), rest));
        assert(notified_all(State::Got401(hss[0]), rest) == notified_all(
            State::Got401Twice,
            rest.drop_first(),
        ));
        lemma_terminal_state_stays(State::Got401Twice, rest.drop_first());
    }
}

} // verus!
