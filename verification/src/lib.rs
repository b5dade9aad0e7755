//! Client-side retry state machine for HTTP Digest authentication.
//!
//! One [`Digest`] negotiator is created per logical request. It is told about
//! each 401 response the transport receives ([`Digest::set_401`]) and is
//! consulted before each attempt is sent ([`Digest::add_headers`]) to decide
//! whether an `Authorization` header must be attached and to compute its value
//! from the retained challenge, the credentials and the target URL.

mod negotiator;
mod outside;
mod scan;

pub use negotiator::Credentials;
pub use negotiator::Digest;
pub use negotiator::Error;
pub use negotiator::State;
pub use negotiator::lemma_notify_401_sequence;
pub use negotiator::lemma_terminal_state_stays;
pub use negotiator::notified_all;
pub use negotiator::notified;
pub use scan::HeaderText;
pub use scan::ascii_seq;
pub use scan::ascii_texts;
pub use scan::contains_token;
pub use scan::lemma_selected_challenge_ascii;
pub use scan::scan_tier;
pub use outside::digest_parse_ok;
pub use scan::lemma_no_headers_selects_nothing;
pub use scan::select_challenge;
pub use scan::selected_challenge;
pub use scan::to_lower;
pub use scan::token_at;
