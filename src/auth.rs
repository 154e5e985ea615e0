use vstd::prelude::*;

use crate::text::{eq_ignore_ascii_case, eq_ignore_case, lower_code};

verus! {

/// The scheme named in the challenge sent with every refusal.
pub const CHALLENGE: &'static str = "Basic";

/// Whether a request may proceed.
#[derive(PartialEq, Eq, Structural, Clone, Copy, Debug)]
pub enum AuthDecision {
    Allow,
    /// Refused with status 401 and the `Basic` challenge.
    Deny,
}

/// User name and password that `Credentials::from_header` reads from an
/// `Authorization` header value, if it reads any.
pub uninterp spec fn basic_credentials_of(header: Seq<char>) -> Option<(Seq<char>, Seq<char>)>;

/// The text of parsed credentials.
pub open spec fn credentials_view(c: Option<(String, String)>) -> Option<(Seq<char>, Seq<char>)> {
    match c {
        Some((u, p)) => Some((u@, p@)),
        None => None,
    }
}

/// Relies on `http_auth_basic::Credentials::from_header`: it splits the
/// value at its first space into scheme and token, refuses when there is no
/// space, and base64-decodes the token into `user:password`.
#[verifier::external_body]
fn parse_basic_header(header: &str) -> (r: Option<(String, String)>)
    ensures
        credentials_view(r) == basic_credentials_of(header@),
        !header@.contains(' ') ==> r is None,
{
    match http_auth_basic::Credentials::from_header(header.to_string()) {
        Ok(c) => Some((c.user_id, c.password)),
        Err(_) => None,
    }
}

/// Credentials pass when both parts equal the configured ones up to ASCII case.
pub open spec fn credentials_accepted(
    given: Option<(Seq<char>, Seq<char>)>,
    user: Seq<char>,
    pass: Seq<char>,
) -> bool {
    match given {
        Some((u, p)) => eq_ignore_case(u, user) && eq_ignore_case(p, pass),
        None => false,
    }
}

/// Decides on credentials already read from a header (`None`: the header
/// could not be read).
pub fn check_credentials(parsed: &Option<(String, String)>, user: &str, pass: &str) -> (r:
    AuthDecision)
    ensures
        (r == AuthDecision::Allow) == credentials_accepted(credentials_view(*parsed), user@, pass@),
{
    match parsed {
        Some((u, p)) => {
            if eq_ignore_ascii_case(u.as_str(), user) && eq_ignore_ascii_case(p.as_str(), pass) {
                AuthDecision::Allow
            } else {
                AuthDecision::Deny
            }
        },
        None => AuthDecision::Deny,
    }
}

/// Checks a request's `Authorization` header against the configured
/// credentials. A missing header is refused before any parsing.
pub fn authorize(header: Option<&str>, user: &str, pass: &str) -> (r: AuthDecision)
    ensures
        header is None ==> r == AuthDecision::Deny,
        header matches Some(h) ==> ((r == AuthDecision::Allow) == credentials_accepted(
            basic_credentials_of(h@),
            user@,
            pass@,
        )),
{
    match header {
        None => AuthDecision::Deny,
        Some(h) => {
            let parsed = parse_basic_header(h);
            check_credentials(&parsed, user, pass)
        },
    }
}

/// Credentials equal to the configured ones up to ASCII case pass.
pub proof fn lemma_matching_credentials_pass(
    u: Seq<char>,
    p: Seq<char>,
    user: Seq<char>,
    pass: Seq<char>,
)
    requires
        eq_ignore_case(u, user),
        eq_ignore_case(p, pass),
    ensures
        credentials_accepted(Some((u, p)), user, pass),
{
}

/// A user name that differs from the configured one in a single character
/// (beyond ASCII case) is refused, whatever the password.
pub proof fn lemma_user_mismatch_refused(
    u: Seq<char>,
    p: Seq<char>,
    user: Seq<char>,
    pass: Seq<char>,
    i: int,
)
    requires
        u.len() == user.len(),
        0 <= i < u.len(),
        lower_code(u[i]) != lower_code(user[i]),
    ensures
        !credentials_accepted(Some((u, p)), user, pass),
{
}

/// A password that differs from the configured one in a single character
/// (beyond ASCII case) is refused, whatever the user name.
pub proof fn lemma_password_mismatch_refused(
    u: Seq<char>,
    p: Seq<char>,
    user: Seq<char>,
    pass: Seq<char>,
    i: int,
)
    requires
        p.len() == pass.len(),
        0 <= i < p.len(),
        lower_code(p[i]) != lower_code(pass[i]),
    ensures
        !credentials_accepted(Some((u, p)), user, pass),
{
}

} // verus!
