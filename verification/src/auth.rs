use vstd::prelude::*;
use vstd::string::*;
use vstd::utf8::{decode_utf8, valid_utf8};

use crate::text::{same_text, split_once, split_once_at, strip_prefix, strip_prefix_of};

verus! {

/// What the standard Base64 engine of the `base64` crate decodes a text into, if it is valid
/// Base64.
pub uninterp spec fn base64_standard_decoded(text: Seq<char>) -> Option<Seq<u8>>;

/// Calls `Engine::decode` of `base64::prelude::BASE64_STANDARD` on the text; its result is
/// named `base64_standard_decoded`, and an error of the crate becomes `None`.
#[verifier::external_body]
fn decode_base64_standard(text: &str) -> (r: Option<Vec<u8>>)
    ensures
        match r {
            Some(bytes) => base64_standard_decoded(text@) == Some(bytes@),
            None => base64_standard_decoded(text@) is None,
        },
{
    base64::Engine::decode(&base64::prelude::BASE64_STANDARD, text).ok()
}

/// Calls `String::from_utf8`: the bytes are a string when they are valid UTF-8, and the string
/// holds the characters they encode.
#[verifier::external_body]
fn string_from_utf8(bytes: Vec<u8>) -> (r: Option<String>)
    ensures
        match r {
            Some(s) => valid_utf8(bytes@) && s@ == decode_utf8(bytes@),
            None => !valid_utf8(bytes@),
        },
{
    String::from_utf8(bytes).ok()
}

/// The user name and password that a Basic `Authorization` header carries: the text after
/// `Basic `, decoded from Base64, read as UTF-8 and split at its first `:`.
pub open spec fn basic_credentials(header: Seq<char>) -> Option<(Seq<char>, Seq<char>)> {
    match strip_prefix(header, "Basic "@) {
        None => None,
        Some(encoded) => match base64_standard_decoded(encoded) {
            None => None,
            Some(bytes) => if valid_utf8(bytes) {
                split_once(decode_utf8(bytes), ':')
            } else {
                None
            },
        },
    }
}

/// The text of an optional string, empty when there is none.
pub open spec fn text_or_empty(s: Option<Seq<char>>) -> Seq<char> {
    match s {
        Some(t) => t,
        None => Seq::empty(),
    }
}

/// Basic authentication is off: neither administrator credential is configured to a nonempty
/// text.
pub open spec fn basic_auth_disabled(user: Option<Seq<char>>, password: Option<Seq<char>>) -> bool {
    text_or_empty(user).len() == 0 && text_or_empty(password).len() == 0
}

/// A request passes Basic authentication: authentication is off, or its `Authorization` header
/// carries the administrator's user name and password, an administrator credential that is not
/// configured counting as empty.
pub open spec fn basic_auth_passes(header: Option<Seq<char>>, user: Option<Seq<char>>, password: Option<Seq<char>>) -> bool {
    basic_auth_disabled(user, password) || match header {
        None => false,
        Some(h) => match basic_credentials(h) {
            None => false,
            Some((u, p)) => u == text_or_empty(user) && p == text_or_empty(password),
        },
    }
}

/// The view of an optional string.
pub open spec fn opt_text(s: Option<&str>) -> Option<Seq<char>> {
    match s {
        Some(t) => Some(t@),
        None => None,
    }
}

/// The view of an optional owned string.
pub open spec fn opt_string(s: Option<String>) -> Option<Seq<char>> {
    match s {
        Some(t) => Some(t@),
        None => None,
    }
}

/// Decides Basic authentication for a request whose `Authorization` header, when it has one
/// that is visible ASCII, is `header`; the administrator's credentials are `user` and
/// `password`. When neither credential is set to a nonempty text every request passes. A
/// request that does not pass is answered 401.
pub fn authorize_basic(header: Option<&str>, user: &Option<String>, password: &Option<String>) -> (r: bool)
    ensures
        r == basic_auth_passes(opt_text(header), opt_string(*user), opt_string(*password)),
{
    let user_empty = match user {
        Some(u) => u.unicode_len() == 0,
        None => true,
    };
    let password_empty = match password {
        Some(p) => p.unicode_len() == 0,
        None => true,
    };
    if user_empty && password_empty {
        return true;
    }
    let header = match header {
        Some(h) => h,
        None => return false,
    };
    let encoded = match strip_prefix_of(header, "Basic ") {
        Some(e) => e,
        None => return false,
    };
    let bytes = match decode_base64_standard(encoded.as_str()) {
        Some(b) => b,
        None => return false,
    };
    let credentials = match string_from_utf8(bytes) {
        Some(s) => s,
        None => return false,
    };
    let (name, pass) = match split_once_at(credentials.as_str(), ':') {
        Some(parts) => parts,
        None => return false,
    };
    let expected_user = match user {
        Some(u) => u.clone(),
        None => String::new(),
    };
    let expected_pass = match password {
        Some(p) => p.clone(),
        None => String::new(),
    };
    same_text(name.as_str(), expected_user.as_str()) && same_text(pass.as_str(), expected_pass.as_str())
}

/// When administrator credentials are configured, Basic authentication accepts exactly the
/// administrator: for a header that carries the user name `u` (without `:`) and the password
/// `p`, the request passes if and only if `u` and `p` are the administrator's (empty where not
/// configured).
pub proof fn lemma_basic_auth_accepts_exactly_the_admin(
    encoded: Seq<char>,
    bytes: Seq<u8>,
    u: Seq<char>,
    p: Seq<char>,
    user: Option<Seq<char>>,
    password: Option<Seq<char>>,
)
    requires
        base64_standard_decoded(encoded) == Some(bytes),
        valid_utf8(bytes),
        decode_utf8(bytes) == u + seq![':'] + p,
        !u.contains(':'),
        !basic_auth_disabled(user, password),
    ensures
        basic_auth_passes(Some("Basic "@ + encoded), user, password) <==> (u == text_or_empty(user) && p == text_or_empty(password)),
{
    reveal_strlit("Basic ");
    let h = "Basic "@ + encoded;
    assert(h.take(6) =~= "Basic "@);
    assert(h.skip(6) =~= encoded);
    let s = decode_utf8(bytes);
    assert forall|j: int| 0 <= j < u.len() implies s[j] != ':' by {
        assert(s[j] == u[j]);
    }
    assert(s[u.len() as int] == ':');
    crate::text::lemma_first_index_at(s, ':', 0, u.len() as int);
    assert(s.take(u.len() as int) =~= u);
    assert(s.skip(u.len() as int + 1) =~= p);
}

/// When administrator credentials are configured, a request without an `Authorization` header
/// never passes.
pub proof fn lemma_basic_auth_needs_a_header(user: Option<Seq<char>>, password: Option<Seq<char>>)
    requires
        !basic_auth_disabled(user, password),
    ensures
        !basic_auth_passes(None, user, password),
{
}

/// When neither administrator credential is configured to a nonempty text, Basic authentication
/// is off: every request passes, with or without a header.
pub proof fn lemma_basic_auth_off_without_credentials(
    header: Option<Seq<char>>,
    user: Option<Seq<char>>,
    password: Option<Seq<char>>,
)
    requires
        user is None || user->0.len() == 0,
        password is None || password->0.len() == 0,
    ensures
        basic_auth_passes(header, user, password),
{
}

} // verus!
