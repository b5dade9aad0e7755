//! Selection of a Digest challenge among the `WWW-Authenticate` header
//! occurrences of a 401 response.
//!
//! A server may offer several challenge schemes or algorithms at once. The
//! negotiator deterministically prefers the strongest offer: a SHA-family
//! digest first, then an MD5 digest, then any header that mentions "digest"
//! at all, scanning the occurrences in their original order within each tier.

use vstd::prelude::*;
use vstd::string::*;

verus! {

/// One occurrence of a `WWW-Authenticate` header on a 401 response: its value
/// as text, or, where the value is not valid text, the message of the failed
/// conversion.
#[derive(Debug)]
pub enum HeaderText {
    Valid(String),
    Invalid(String),
}

/// ASCII lower-casing at the code-point level: the upper-case letters map to
/// their lower-case counterparts; every other code point is unchanged.
pub open spec fn to_lower(c: int) -> int {
    if 65 <= c <= 90 {
        c + 32
    } else {
        c
    }
}

/// The token `t` occurs in `h` at position `i`, comparing the characters of
/// `h` after ASCII lower-casing.
pub open spec fn token_at(h: Seq<char>, t: Seq<char>, i: int) -> bool {
    &&& 0 <= i
    &&& i + t.len() <= h.len()
    &&& forall|j: int| 0 <= j < t.len() ==> to_lower(h[i + j] as int) == t[j] as int
}

/// The token `t` occurs somewhere in `h` as a substring, comparing the
/// characters of `h` after ASCII lower-casing.
pub open spec fn contains_token(h: Seq<char>, t: Seq<char>) -> bool {
    exists|i: int| token_at(h, t, i)
}

/// One tier of the scan: the first occurrence, in order, whose text contains
/// the token. An occurrence that is not valid text aborts the scan with its
/// conversion message, as it would have had to be read to be compared.
pub open spec fn scan_tier(hs: Seq<HeaderText>, t: Seq<char>) -> Result<
    Option<Seq<char>>,
    Seq<char>,
>
    decreases hs.len(),
{
    if hs.len() == 0 {
        Ok(None)
    } else {
        match hs[0] {
            HeaderText::Invalid(m) => Err(m@),
            HeaderText::Valid(s) => if contains_token(s@, t) {
                Ok(Some(s@))
            } else {
                scan_tier(hs.drop_first(), t)
            },
        }
    }
}

/// The challenge the negotiator selects: the first match of the strongest
/// tier that has one, the tiers being "algorithm=sha", then "algorithm=md5",
/// then "digest". `Ok(None)` means no occurrence matched any tier.
pub open spec fn selected_challenge(hs: Seq<HeaderText>) -> Result<
    Option<Seq<char>>,
    Seq<char>,
> {
    match scan_tier(hs, "algorithm=sha"@) {
        Err(m) => Err(m),
        Ok(Some(h)) => Ok(Some(h)),
        Ok(None) => match scan_tier(hs, "algorithm=md5"@) {
            Err(m) => Err(m),
            Ok(Some(h)) => Ok(Some(h)),
            Ok(None) => scan_tier(hs, "digest"@),
        },
    }
}

/// Every code point of `s` is ASCII. The transport hands a header value over
/// as text only when its bytes are visible ASCII, so every text the
/// negotiator retains satisfies this.
pub open spec fn ascii_seq(s: Seq<char>) -> bool {
    forall|i: int| 0 <= i < s.len() ==> (s[i] as int) < 128
}

/// Every occurrence that is valid text is ASCII text: true of everything the
/// transport's header conversion yields.
pub open spec fn ascii_texts(hs: Seq<HeaderText>) -> bool {
    forall|i: int|
        0 <= i < hs.len() ==> (#[trigger] hs[i] matches HeaderText::Valid(s) ==> ascii_seq(s@))
}

proof fn lemma_scan_tier_ascii(hs: Seq<HeaderText>, t: Seq<char>)
    requires
        ascii_texts(hs),
    ensures
        scan_tier(hs, t) matches Ok(Some(v)) ==> ascii_seq(v),
    decreases hs.len(),
{
    if hs.len() > 0 {
        match hs[0] {
            HeaderText::Invalid(_) => {},
            HeaderText::Valid(s) => {
                if !contains_token(s@, t) {
                    assert forall|i: int| 0 <= i < hs.drop_first().len() implies (#[trigger] hs.drop_first()[i]
                        matches HeaderText::Valid(x) ==> ascii_seq(x@)) by {
                        assert(hs.drop_first()[i] == hs[i + 1]);
                    }
                    lemma_scan_tier_ascii(hs.drop_first(), t);
                }
            },
        }
    }
}

/// The scan only ever selects one of the texts it scanned, so over ASCII
/// texts the selected challenge is ASCII.
pub proof fn lemma_selected_challenge_ascii(hs: Seq<HeaderText>)
    requires
        ascii_texts(hs),
    ensures
        selected_challenge(hs) matches Ok(Some(v)) ==> ascii_seq(v),
{
    lemma_scan_tier_ascii(hs, "algorithm=sha"@);
    lemma_scan_tier_ascii(hs, "algorithm=md5"@);
    lemma_scan_tier_ascii(hs, "digest"@);
}

/// A response without any `WWW-Authenticate` occurrence matches no tier, so
/// after exactly one such 401, and with credentials present, `add_headers`
/// is bound by its contract to fail citing the missing header.
pub proof fn lemma_no_headers_selects_nothing()
    ensures
        selected_challenge(Seq::<HeaderText>::empty()) == Ok::<Option<Seq<char>>, Seq<char>>(None),
{
}

fn lower_matches(c: char, d: char) -> (r: bool)
    ensures
        r == (to_lower(c as int) == d as int),
{
    let cu: u32 = c as u32;
    let du: u32 = d as u32;
    if 65 <= cu && cu <= 90 {
        cu + 32 == du
    } else {
        cu == du
    }
}

fn token_at_index(h: &str, t: &str, i: usize) -> (r: bool)
    requires
        h@.len() <= usize::MAX,
        i + t@.len() <= h@.len(),
    ensures
        r == token_at(h@, t@, i as int),
{
    let m: usize = t.unicode_len();
    let mut j: usize = 0;
    while j < m
        invariant
            m == t@.len(),
            h@.len() <= usize::MAX,
            i + m <= h@.len(),
            j <= m,
            forall|l: int| 0 <= l < j ==> to_lower(h@[i + l] as int) == t@[l] as int,
        decreases m - j,
    {
        let hc: char = h.get_char(i + j);
        let tc: char = t.get_char(j);
        if !lower_matches(hc, tc) {
            assert(!token_at(h@, t@, i as int)) by {
                assert(to_lower(h@[i + j] as int) != t@[j as int] as int);
            }
            return false;
        }
        j += 1;
    }
    true
}

fn str_contains_token(h: &str, t: &str) -> (r: bool)
    ensures
        r == contains_token(h@, t@),
{
    let n: usize = h.unicode_len();
    let m: usize = t.unicode_len();
    if m > n {
        assert(forall|k: int| !token_at(h@, t@, k));
        return false;
    }
    let mut i: usize = 0;
    while i <= n - m
        invariant
            n == h@.len(),
            m == t@.len(),
            m <= n,
            i <= n - m + 1,
            forall|k: int| 0 <= k < i ==> !token_at(h@, t@, k),
        decreases n - m + 1 - i,
    {
        if token_at_index(h, t, i) {
            assert(contains_token(h@, t@));
            return true;
        }
        i += 1;
    }
    assert(forall|k: int| !token_at(h@, t@, k)) by {
        assert(forall|k: int| k > n - m ==> !token_at(h@, t@, k));
    }
    false
}

fn scan_tier_headers(headers: &Vec<HeaderText>, token: &str) -> (r: Result<
    Option<String>,
    String,
>)
    ensures
        ({
            let s = scan_tier(headers@, token@);
            match r {
                Ok(Some(h)) => s == Ok::<Option<Seq<char>>, Seq<char>>(Some(h@)),
                Ok(None) => s == Ok::<Option<Seq<char>>, Seq<char>>(None),
                Err(m) => s == Err::<Option<Seq<char>>, Seq<char>>(m@),
            }
        }),
{
    let mut idx: usize = 0;
    proof {
        assert(headers@.skip(0) =~= headers@);
    }
    while idx < headers.len()
        invariant
            idx <= headers.len(),
            scan_tier(headers@, token@) == scan_tier(headers@.skip(idx as int), token@),
        decreases headers.len() - idx,
    {
        proof {
            assert(headers@.skip(idx as int)[0] == headers@[idx as int]);
        }
        match &headers[idx] {
            HeaderText::Invalid(m) => {
                return Err(m.clone());
            },
            HeaderText::Valid(s) => {
                if str_contains_token(s.as_str(), token) {
                    return Ok(Some(s.clone()));
                }
                proof {
                    assert(headers@.skip(idx as int).drop_first() =~= headers@.skip(
                        idx as int + 1,
                    ));
                }
                idx += 1;
            },
        }
    }
    proof {
        assert(headers@.skip(idx as int) =~= Seq::<HeaderText>::empty());
    }
    Ok(None)
}

/// Selects the challenge header among the `WWW-Authenticate` occurrences of a
/// 401 response, by algorithm preference: a SHA-family digest first, then an
/// MD5 digest, then any occurrence mentioning "digest" (case-insensitive
/// substring match against the whole value), first match wins within each
/// tier, the occurrences scanned in their original order.
pub fn select_challenge(headers: &Vec<HeaderText>) -> (r: Result<Option<String>, String>)
    ensures
        ({
            let s = selected_challenge(headers@);
            match r {
                Ok(Some(h)) => s == Ok::<Option<Seq<char>>, Seq<char>>(Some(h@)),
                Ok(None) => s == Ok::<Option<Seq<char>>, Seq<char>>(None),
                Err(m) => s == Err::<Option<Seq<char>>, Seq<char>>(m@),
            }
        }),
{
    match scan_tier_headers(headers, "algorithm=sha") {
        Err(m) => Err(m),
        Ok(Some(h)) => Ok(Some(h)),
        Ok(None) => match scan_tier_headers(headers, "algorithm=md5") {
            Err(m) => Err(m),
            Ok(Some(h)) => Ok(Some(h)),
            Ok(None) => scan_tier_headers(headers, "digest"),
        },
    }
}

} // verus!
