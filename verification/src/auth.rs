//! The bearer-token check that guards the HTTP API.

use vstd::prelude::*;
use crate::text::{chars_of, opt_str_view};

verus! {

/// Is `b` a visible ASCII byte of a header value (a printable character or
/// a tab)?
pub open spec fn visible_ascii(b: u8) -> bool {
    (32 <= b && b < 127) || b == 9
}

/// The text of a header value, as `HeaderValue::to_str` reads it: only
/// values made of visible ASCII bytes have one, each byte one character.
pub open spec fn header_text(bytes: Seq<u8>) -> Option<Seq<char>> {
    if forall|i: int| 0 <= i < bytes.len() ==> visible_ascii(#[trigger] bytes[i]) {
        Some(bytes.map_values(|b: u8| b as char))
    } else {
        None
    }
}

/// The scheme in front of the token in an `Authorization` header.
pub open spec fn bearer_scheme() -> Seq<char> {
    "Bearer "@
}

/// Does the `Authorization` header (its raw bytes, if the request has one)
/// carry `Bearer ` followed by exactly `token`?
pub open spec fn bears_token(header: Option<Seq<u8>>, token: Seq<char>) -> bool {
    match header {
        Some(b) => match header_text(b) {
            Some(h) => {
                &&& bearer_scheme().is_prefix_of(h)
                &&& h.skip(bearer_scheme().len() as int) == token
            },
            None => false,
        },
        None => false,
    }
}

/// What becomes of a request.
#[derive(Debug, Clone, Copy, PartialEq, Eq, Structural)]
pub enum AuthDecision {
    /// No token is configured: the request passes unchecked.
    Unprotected,
    /// The request bears the configured token: it passes.
    Granted,
    /// The request does not bear the configured token: it is answered
    /// `401 Unauthorized`.
    Refused,
}

/// The decision for a request with `header` as `Authorization` header (if
/// any), where `expected` is the configured token (if any).
pub open spec fn spec_authorize(header: Option<Seq<u8>>, expected: Option<Seq<char>>) -> AuthDecision {
    match expected {
        None => AuthDecision::Unprotected,
        Some(t) => if bears_token(header, t) {
            AuthDecision::Granted
        } else {
            AuthDecision::Refused
        },
    }
}

/// The view of an optional byte slice.
pub open spec fn opt_bytes_view(o: Option<&[u8]>) -> Option<Seq<u8>> {
    match o {
        Some(b) => Some(b@),
        None => None,
    }
}

fn all_visible(bytes: &[u8]) -> (r: bool)
    ensures
        r == forall|i: int| 0 <= i < bytes@.len() ==> visible_ascii(#[trigger] bytes@[i]),
{
    let mut i: usize = 0;
    while i < bytes.len()
        invariant
            i <= bytes@.len(),
            forall|k: int| 0 <= k < i ==> visible_ascii(#[trigger] bytes@[k]),
        decreases bytes@.len() - i,
    {
        let b = bytes[i];
        if !((32 <= b && b < 127) || b == 9) {
            return false;
        }
        i = i + 1;
    }
    true
}

/// Does `bytes[from..]`, read one character per byte, spell exactly `text`?
fn bytes_spell(bytes: &[u8], from: usize, text: &Vec<char>) -> (r: bool)
    requires
        from <= bytes@.len(),
    ensures
        r == (bytes@.skip(from as int).map_values(|b: u8| b as char) == text@),
{
    let ghost target = bytes@.skip(from as int).map_values(|b: u8| b as char);
    if bytes.len() - from != text.len() {
        assert(target.len() != text@.len());
        return false;
    }
    let n = bytes.len();
    let mut i: usize = 0;
    while i < text.len()
        invariant
            i <= text@.len(),
            n == bytes@.len(),
            from + text@.len() == bytes@.len(),
            target == bytes@.skip(from as int).map_values(|b: u8| b as char),
            forall|k: int| 0 <= k < i ==> target[k] == text@[k],
        decreases text@.len() - i,
    {
        assert(target[i as int] == bytes@[from + i] as char);
        if (bytes[from + i] as char) != text[i] {
            return false;
        }
        i = i + 1;
    }
    assert(target =~= text@);
    true
}

/// Does `bytes`, read one character per byte, start with `text`?
fn bytes_start_with(bytes: &[u8], text: &Vec<char>) -> (r: bool)
    ensures
        r == text@.is_prefix_of(bytes@.map_values(|b: u8| b as char)),
{
    let ghost h = bytes@.map_values(|b: u8| b as char);
    if bytes.len() < text.len() {
        return false;
    }
    let mut i: usize = 0;
    while i < text.len()
        invariant
            i <= text@.len(),
            text@.len() <= bytes@.len(),
            h == bytes@.map_values(|b: u8| b as char),
            forall|k: int| 0 <= k < i ==> text@[k] == h[k],
        decreases text@.len() - i,
    {
        if (bytes[i] as char) != text[i] {
            return false;
        }
        i = i + 1;
    }
    true
}

/// Decides whether a request may pass (see `spec_authorize`): without a
/// configured token every request passes; with one, only a request whose
/// `Authorization` header is visible ASCII and reads `Bearer ` followed by
/// exactly the token.
pub fn authorize(header: Option<&[u8]>, expected: Option<&str>) -> (d: AuthDecision)
    ensures
        d == spec_authorize(opt_bytes_view(header), opt_str_view(expected)),
{
    let token = match expected {
        Some(t) => t,
        None => return AuthDecision::Unprotected,
    };
    let bytes = match header {
        Some(b) => b,
        None => return AuthDecision::Refused,
    };
    if !all_visible(bytes) {
        return AuthDecision::Refused;
    }
    let scheme = chars_of("Bearer ");
    if !bytes_start_with(bytes, &scheme) {
        return AuthDecision::Refused;
    }
    let ghost h = bytes@.map_values(|b: u8| b as char);
    assert(h.skip(scheme@.len() as int) =~= bytes@.skip(scheme@.len() as int).map_values(|b: u8| b as char));
    let wanted = chars_of(token);
    if bytes_spell(bytes, scheme.len(), &wanted) {
        AuthDecision::Granted
    } else {
        AuthDecision::Refused
    }
}


/// Without a configured token the API is open: every request passes.
pub proof fn lemma_no_token_open(header: Option<Seq<u8>>)
    ensures
        spec_authorize(header, None) == AuthDecision::Unprotected,
{
}

/// With a configured token, a request without an `Authorization` header is
/// refused.
pub proof fn lemma_missing_header_refused(token: Seq<char>)
    ensures
        spec_authorize(None, Some(token)) == AuthDecision::Refused,
{
}

/// The bytes of an ASCII text, one per character.
pub open spec fn ascii_bytes(t: Seq<char>) -> Seq<u8> {
    t.map_values(|c: char| c as u8)
}

/// A text whose characters are all visible ASCII.
pub open spec fn visible_text(t: Seq<char>) -> bool {
    forall|i: int| 0 <= i < t.len() ==> (#[trigger] t[i]) as int <= 126 && visible_ascii(t[i] as u8)
}

proof fn lemma_ascii_roundtrip(c: char)
    requires
        (c as int) < 128,
    ensures
        ((c as u8) as char) == c,
{
    assert((c as u8) as int == c as int);
    assert(((c as u8) as char) as int == c as int);
}

/// With a configured token made of visible ASCII, the header
/// `Bearer <token>` is granted, and a header that is granted names exactly
/// the configured token.
pub proof fn lemma_bearer_token_granted(token: Seq<char>, header: Seq<u8>)
    requires
        visible_text(token),
    ensures
        spec_authorize(Some(ascii_bytes(bearer_scheme() + token)), Some(token)) == AuthDecision::Granted,
        spec_authorize(Some(header), Some(token)) == AuthDecision::Granted ==> header == ascii_bytes(
            bearer_scheme() + token,
        ),
{
    reveal_strlit("Bearer ");
    let full = bearer_scheme() + token;
    assert(visible_text(bearer_scheme()));
    assert(visible_text(full)) by {
        assert forall|i: int| 0 <= i < full.len() implies (#[trigger] full[i]) as int <= 126
            && visible_ascii(full[i] as u8) by {
            if i >= bearer_scheme().len() {
                assert(full[i] == token[i - bearer_scheme().len()]);
            }
        }
    }
    let b = ascii_bytes(full);
    assert forall|i: int| 0 <= i < b.len() implies visible_ascii(#[trigger] b[i]) by {
        assert(b[i] == full[i] as u8);
    }
    let bc = b.map_values(|x: u8| x as char);
    assert(bc =~= full) by {
        assert forall|i: int| 0 <= i < full.len() implies #[trigger] bc[i] == full[i] by {
            assert(full[i] as int <= 126);
            lemma_ascii_roundtrip(full[i]);
        }
    }
    assert(full.skip(bearer_scheme().len() as int) =~= token);
    if spec_authorize(Some(header), Some(token)) == AuthDecision::Granted {
        let h = header.map_values(|x: u8| x as char);
        assert(h =~= bearer_scheme() + h.skip(bearer_scheme().len() as int));
        assert(h =~= full);
        assert forall|i: int| 0 <= i < header.len() implies #[trigger] header[i] == b[i] by {
            assert(visible_ascii(header[i]));
            assert(h[i] == header[i] as char);
            assert(b[i] == full[i] as u8);
        }
        assert(header =~= b);
    }
}
} // verus!
