//! The computed parts of the web layer: the pop count taken from the query
//! string, the status line for a rejected request, the session cookie, and
//! the ownership flag a dashboard response carries.

use vstd::prelude::*;
use vstd::string::StringExecFns;

verus! {

/// How many entries a pop request takes when the query names no count.
pub const DEFAULT_POP_COUNT: u16 = 4;

/// The query argument of a pop request: an optional count.
pub struct NextQueryArg {
    count: Option<u16>,
}

impl NextQueryArg {
    /// The count as given, if any.
    pub closed spec fn spec_count(&self) -> Option<u16> {
        self.count
    }

    pub fn new(count: Option<u16>) -> (r: Self)
        ensures
            r.spec_count() == count,
    {
        NextQueryArg { count }
    }

    /// The count to pop: the one given, else the default.
    pub fn count_or_default(&self) -> (c: u16)
        ensures
            c == match self.spec_count() {
                Some(given) => given,
                None => DEFAULT_POP_COUNT,
            },
    {
        match self.count {
            Some(given) => given,
            None => DEFAULT_POP_COUNT,
        }
    }
}

/// How a rejected request is classified before it is answered.
pub enum RejectionKind {
    /// No route matched.
    NotFound,
    /// The caller's token was missing or invalid.
    Unauthorized,
    /// Anything else: answered as an internal error.
    Other,
}

/// The status code and body message for a rejection: not-found and
/// unauthorized each get their own answer, everything else is reported as
/// an unhandled internal error.
pub fn rejection_code_and_message(kind: &RejectionKind) -> (r: (u16, String))
    ensures
        kind matches RejectionKind::NotFound ==> r.0 == 404 && r.1@ == "NOT_FOUND"@,
        kind matches RejectionKind::Unauthorized ==> r.0 == 401 && r.1@ == "Unauthorized"@,
        kind matches RejectionKind::Other ==> r.0 == 500 && r.1@ == "UNHANDLED_REJECTION"@,
{
    match kind {
        RejectionKind::NotFound => (404, "NOT_FOUND".to_owned()),
        RejectionKind::Unauthorized => (401, "Unauthorized".to_owned()),
        RejectionKind::Other => (500, "UNHANDLED_REJECTION".to_owned()),
    }
}

/// What the session cookie header carries for a given token.
pub open spec fn spec_authorization_cookie(id_token: Seq<char>) -> Seq<char> {
    "id_token="@ + id_token + "; HttpOnly; Secure"@
}

/// The `Set-Cookie` value that stores the caller's token: HTTP-only and
/// secure, under the fixed cookie name.
pub fn authorization_cookie_value(id_token: &str) -> (r: String)
    ensures
        r@ == spec_authorization_cookie(id_token@),
{
    let mut r = String::from_str("id_token=");
    r.append(id_token);
    r.append("; HttpOnly; Secure");
    r
}

/// What `str::to_lowercase` yields: a function of the characters alone.
pub uninterp spec fn lower_of(s: Seq<char>) -> Seq<char>;

/// Relies on `str::to_lowercase`: the result depends only on the input's
/// characters, so equal names lower the same way.
#[verifier::external_body]
fn to_lowercase(s: &str) -> (r: String)
    ensures
        r@ == lower_of(s@),
{
    s.to_lowercase()
}

/// The ownership mark of a dashboard response: set — and then true — exactly
/// when the viewer's name is the queue owner's, compared case-insensitively;
/// absent otherwise.
pub fn owner_flag(viewer: &str, queue_owner: &str) -> (r: Option<bool>)
    ensures
        r == if lower_of(viewer@) == lower_of(queue_owner@) {
            Some(true)
        } else {
            None::<bool>
        },
{
    if to_lowercase(viewer) == to_lowercase(queue_owner) {
        Some(true)
    } else {
        None
    }
}

} // verus!
