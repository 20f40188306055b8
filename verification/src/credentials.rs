//! The credential provider: resolving the user id and secret from
//! line-oriented configuration text and deriving the Basic-Auth token.
//!
//! Reading the configuration file itself is left to the caller; this module
//! takes the lines as plain values, so the whole provider is verified without
//! any file-system dependency.  Either both configuration keys resolve, or the
//! call fails with a single missing-credential failure: a partially resolved
//! credential is never returned.

use vstd::prelude::*;

use base64::Engine;

verus! {

use vstd::string::StrSliceExecFns;
use vstd::string::StringExecFns;

use crate::errors::{Failure, FailureView, missing_credential_view};
use crate::text::{eq_split, has_prefix, is_prefix, value_after_eq};

/// A line defines configuration key `key` when it starts with the key and
/// contains an `=`; the value is the text after the first `=`.
pub open spec fn line_defines(l: Seq<char>, key: Seq<char>) -> bool {
    is_prefix(key, l) && eq_split(l) is Some
}

/// The value a defining line carries.
pub open spec fn line_value(l: Seq<char>) -> Seq<char> {
    eq_split(l)->Some_0
}

/// The value of `key` in `lines`; when several lines define the key, the last
/// one wins.
pub open spec fn lookup(lines: Seq<Seq<char>>, key: Seq<char>) -> Option<Seq<char>>
    decreases lines.len(),
{
    if lines.len() == 0 {
        None
    } else if line_defines(lines.last(), key) {
        Some(line_value(lines.last()))
    } else {
        lookup(lines.drop_last(), key)
    }
}

/// Scans the configuration lines for `key` and returns its value, if any.
pub fn config_value(lines: &Vec<String>, key: &str) -> (r: Option<String>)
    ensures
        match r {
            Some(v) => lookup(lines.deep_view(), key@) == Some(v@),
            None => lookup(lines.deep_view(), key@) is None,
        },
{
    let ghost lv = lines.deep_view();
    let mut result: Option<String> = None;
    let mut i: usize = 0;
    proof {
        assert(lv.take(0).len() == 0);
    }
    while i < lines.len()
        invariant
            0 <= i <= lines@.len(),
            lv == lines.deep_view(),
            lv.len() == lines@.len(),
            match result {
                Some(v) => lookup(lv.take(i as int), key@) == Some(v@),
                None => lookup(lv.take(i as int), key@) is None,
            },
        decreases lines@.len() - i,
    {
        proof {
            assert(lv.take(i + 1).drop_last() =~= lv.take(i as int));
            assert(lv.take(i + 1).last() == lines@[i as int]@);
        }
        let l = &lines[i];
        if has_prefix(l.as_str(), key) {
            match value_after_eq(l.as_str()) {
                Some(v) => {
                    result = Some(v);
                },
                None => {},
            }
        }
        i = i + 1;
    }
    proof {
        assert(lv.take(lv.len() as int) =~= lv);
    }
    result
}

/// The base-64 text that the standard padded alphabet assigns to the UTF-8
/// bytes of a character sequence.
pub uninterp spec fn base64_of(s: Seq<char>) -> Seq<char>;

/// Relies on `base64`'s `STANDARD` engine (`Engine::encode`): standard
/// alphabet, padded, a pure function of the input bytes — here the UTF-8 bytes
/// of `s`.  Its output-size computation cannot overflow on a 64-bit target for
/// any realizable input, so the call returns normally on every input.
#[verifier::external_body]
fn encode_base64(s: &str) -> (r: String)
    ensures
        r@ == base64_of(s@),
{
    base64::engine::general_purpose::STANDARD.encode(s.as_bytes())
}

/// The Basic-Auth credential derived from a user id and a secret: the base-64
/// encoding of the two joined by a single colon.
pub open spec fn credential_of(user: Seq<char>, secret: Seq<char>) -> Seq<char> {
    base64_of(user + ":"@ + secret)
}

/// Joins `user` and `secret` with a colon and encodes the result.
pub fn basic_token(user: &str, secret: &str) -> (r: String)
    ensures
        r@ == credential_of(user@, secret@),
{
    let mut joined = user.to_owned();
    joined.append(":");
    joined.append(secret);
    proof {
        assert(joined@ =~= user@ + ":"@ + secret@);
    }
    encode_base64(joined.as_str())
}

/// Derives the credential from the resolved configuration values.  Fails with
/// a single missing-credential failure unless both values are present: a token
/// is never built from only one of the two.
pub fn auth_token(user: Option<String>, secret: Option<String>) -> (r: Result<String, Failure>)
    ensures
        r is Ok <==> (user is Some && secret is Some),
        r matches Err(f) ==> f@ == missing_credential_view(),
        user matches Some(u) ==> secret matches Some(s) ==> (r matches Ok(t) && t@
            == credential_of(u@, s@)),
{
    match (user, secret) {
        (Some(u), Some(s)) => Ok(basic_token(u.as_str(), s.as_str())),
        _ => Err(Failure::missing_credential()),
    }
}

/// What the credential provider yields for given configuration lines.
pub open spec fn spec_credential(lines: Seq<Seq<char>>) -> Result<Seq<char>, FailureView> {
    match (lookup(lines, "SAP_USER"@), lookup(lines, "SAP_PASSWORD"@)) {
        (Some(u), Some(s)) => Ok(credential_of(u, s)),
        _ => Err(missing_credential_view()),
    }
}

/// The credential provider: resolves the user id and the secret from the
/// configuration lines and derives the Basic-Auth token.
pub fn credential_from_config(lines: &Vec<String>) -> (r: Result<String, Failure>)
    ensures
        match r {
            Ok(t) => spec_credential(lines.deep_view()) == Ok::<Seq<char>, FailureView>(t@),
            Err(f) => spec_credential(lines.deep_view()) == Err::<Seq<char>, FailureView>(f@),
        },
{
    let user = config_value(lines, "SAP_USER");
    let secret = config_value(lines, "SAP_PASSWORD");
    auth_token(user, secret)
}

} // verus!
