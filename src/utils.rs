//! Small helpers: identities, phone numbers, e-mail addresses and random
//! codes.
use actix_identity::Identity;
use rand::Rng;
use vstd::prelude::*;
use vstd::string::{StrSliceExecFns, StringExecFns};

use crate::errors::AppError;
use crate::ident::{parse_uuid, uuid_parse};

verus! {

/// `actix_identity::Identity`, the session identity of a request; opaque here.
#[verifier::external_type_specification]
#[verifier::external_body]
pub struct ExIdentity(Identity);

/// Relies on `actix_identity::Identity::id`: the identifier stored in the
/// session, which depends on the request; nothing is promised here.
#[verifier::external_body]
fn identity_text(identity: &Identity) -> (r: Option<String>) {
    identity.id().ok()
}

/// The user that an identity's stored text names, if it is a UUID.
pub fn user_id_from_text(text: &Option<String>) -> (r: Option<u128>)
    ensures
        r == match text {
            None => None,
            Some(s) => uuid_parse(s@),
        },
{
    match text {
        None => None,
        Some(s) => parse_uuid(s.as_str()),
    }
}

/// The authenticated user; `Unauthorized` without a valid identity.
pub fn get_user_id(identity: &Identity) -> (r: Result<u128, AppError>)
    ensures
        r is Ok || r == Err::<u128, AppError>(AppError::Unauthorized),
{
    let text = identity_text(identity);
    match user_id_from_text(&text) {
        Some(v) => Ok(v),
        None => Err(AppError::Unauthorized),
    }
}

/// The authenticated user, or `None` without a valid identity.
pub fn get_user_id_opt(identity: &Identity) -> (r: Result<Option<u128>, AppError>)
    ensures
        r is Ok,
{
    let text = identity_text(identity);
    Ok(user_id_from_text(&text))
}

/// What `char::is_numeric` says of a character: whether its Unicode general
/// category is a number category (Nd, Nl or No).
pub uninterp spec fn numeric_char(c: char) -> bool;

/// Relies on `char::is_numeric`, which holds of the ASCII digits and of no
/// other ASCII character.
#[verifier::external_body]
fn is_numeric(c: char) -> (r: bool)
    ensures
        r == numeric_char(c),
        ('0' <= c && c <= '9') ==> r,
        ((c as u32) < 128 && !('0' <= c && c <= '9')) ==> !r,
{
    c.is_numeric()
}

/// Relies on `String::push`: appends one character.
#[verifier::external_body]
fn push_char(s: &mut String, c: char)
    ensures
        final(s)@ == old(s)@.push(c),
{
    s.push(c)
}

/// The numeric characters of `s`, in order.
pub open spec fn numeric_only(s: Seq<char>) -> Seq<char>
    decreases s.len(),
{
    if s.len() == 0 {
        Seq::empty()
    } else {
        let rest = numeric_only(s.drop_last());
        if numeric_char(s.last()) {
            rest.push(s.last())
        } else {
            rest
        }
    }
}

/// Keeps the numeric characters of a phone number and drops the rest.
pub fn sanitize_phone(phone: &str) -> (r: String)
    ensures
        r@ == numeric_only(phone@),
{
    let n = phone.unicode_len();
    let mut out = String::new();
    let mut i: usize = 0;
    while i < n
        invariant
            n == phone@.len(),
            0 <= i <= n,
            out@ == numeric_only(phone@.subrange(0, i as int)),
        decreases n - i,
    {
        let c = phone.get_char(i);
        proof {
            assert(phone@.subrange(0, i + 1).drop_last() =~= phone@.subrange(0, i as int));
        }
        if is_numeric(c) {
            push_char(&mut out, c);
        }
        i += 1;
    }
    assert(phone@.subrange(0, n as int) =~= phone@);
    out
}

/// What the `regex` crate decides of `text` against `pattern`: `None` where
/// the pattern does not compile, else whether the text matches.
pub uninterp spec fn regex_match(pattern: Seq<char>, text: Seq<char>) -> Option<bool>;

/// Relies on `regex::Regex::new` and `Regex::is_match`.
#[verifier::external_body]
fn matches_pattern(pattern: &str, text: &str) -> (r: Option<bool>)
    ensures
        r == regex_match(pattern@, text@),
{
    match regex::Regex::new(pattern) {
        Ok(re) => Some(re.is_match(text)),
        Err(_) => None,
    }
}

/// The shape an e-mail address must have.
pub const EMAIL_PATTERN: &'static str = r"^[a-zA-Z0-9._%+-]+@[a-zA-Z0-9.-]+\.[a-zA-Z]{2,}$";

/// Whether `email` has the shape of an e-mail address.
pub fn validate_email(email: &str) -> (r: bool)
    ensures
        r == (regex_match(EMAIL_PATTERN@, email@) == Some(true)),
{
    match matches_pattern(EMAIL_PATTERN, email) {
        Some(b) => b,
        None => false,
    }
}

/// Relies on `rand::thread_rng` and `Rng::gen_range`, which panics on an
/// empty range: a random index below `bound`.
#[verifier::external_body]
fn random_below(bound: usize) -> (r: usize)
    requires
        bound > 0,
    ensures
        r < bound,
{
    rand::thread_rng().gen_range(0..bound)
}

/// The characters of generated codes.
pub const CODE_CHARSET: &'static str = "ABCDEFGHIJKLMNOPQRSTUVWXYZ0123456789";

/// A random code of `length` upper-case letters and digits.
pub fn generate_random_string(length: usize) -> (r: String)
    ensures
        r@.len() == length,
        forall|i: int| 0 <= i < r@.len() ==> CODE_CHARSET@.contains(#[trigger] r@[i]),
{
    let charset = CODE_CHARSET;
    let n = charset.unicode_len();
    proof {
        reveal_strlit("ABCDEFGHIJKLMNOPQRSTUVWXYZ0123456789");
    }
    let mut out = String::new();
    let mut k: usize = 0;
    while k < length
        invariant
            n == CODE_CHARSET@.len(),
            n > 0,
            charset@ == CODE_CHARSET@,
            0 <= k <= length,
            out@.len() == k,
            forall|i: int| 0 <= i < out@.len() ==> CODE_CHARSET@.contains(#[trigger] out@[i]),
        decreases length - k,
    {
        let idx = random_below(n);
        let c = charset.get_char(idx);
        assert(CODE_CHARSET@[idx as int] == c);
        push_char(&mut out, c);
        k += 1;
    }
    out
}

} // verus!
