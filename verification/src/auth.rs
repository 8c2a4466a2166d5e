//! The computed parts of the login flow: reading the caller's token out of
//! a cookie or `Authorization` header, choosing among the outcomes of
//! verifying it against each published key, classifying failures, and
//! building the token-exchange requests.

use vstd::prelude::*;
use vstd::string::StringExecFns;
use vstd::string::StringSliceAdditionalSpecFns;
use vstd::string::StrSliceExecFns;

verus! {

/// The verified claims of an accepted token.
pub struct Claims {
    iss: String,
    sub: String,
    aud: String,
    exp: usize,
    iat: usize,
    nonce: Option<String>,
    pub email: String,
    pub preferred_username: String,
}

/// The mathematical value of a [`Claims`].
pub ghost struct ClaimsModel {
    pub iss: Seq<char>,
    pub sub: Seq<char>,
    pub aud: Seq<char>,
    pub exp: usize,
    pub iat: usize,
    pub nonce: Option<Seq<char>>,
    pub email: Seq<char>,
    pub preferred_username: Seq<char>,
}

impl View for Claims {
    type V = ClaimsModel;

    closed spec fn view(&self) -> ClaimsModel {
        ClaimsModel {
            iss: self.iss@,
            sub: self.sub@,
            aud: self.aud@,
            exp: self.exp,
            iat: self.iat,
            nonce: self.nonce.deep_view(),
            email: self.email@,
            preferred_username: self.preferred_username@,
        }
    }
}

impl Claims {
    #[allow(clippy::too_many_arguments)]
    pub fn new(
        iss: String,
        sub: String,
        aud: String,
        exp: usize,
        iat: usize,
        nonce: Option<String>,
        email: String,
        preferred_username: String,
    ) -> (c: Self)
        ensures
            c@ == (ClaimsModel {
                iss: iss@,
                sub: sub@,
                aud: aud@,
                exp: exp,
                iat: iat,
                nonce: nonce.deep_view(),
                email: email@,
                preferred_username: preferred_username@,
            }),
    {
        Claims { iss, sub, aud, exp, iat, nonce, email, preferred_username }
    }
}

/// The typed rejection raised when the keys needed to check a token could
/// not be fetched at all.
pub struct BadGateway;

/// The typed rejection for a caller whose token is missing or invalid.
pub struct Unauthorized;

/// Why token validation failed, by family.
pub enum AuthFailure {
    /// Fetching the published keys failed.
    Fetch,
    /// The token failed validation against the keys.
    JwtValidation,
    /// Nothing more is known.
    Unknown,
}

/// Which typed rejection a validation failure raises.
pub enum AuthRejection {
    Gateway(BadGateway),
    Invalid(Unauthorized),
}

/// A failed key fetch is the gateway's fault; every other failure is the
/// caller's.
pub fn rejection_for_failure(failure: &AuthFailure) -> (r: AuthRejection)
    ensures
        (r matches AuthRejection::Gateway(_)) <==> (failure matches AuthFailure::Fetch),
{
    match failure {
        AuthFailure::Fetch => AuthRejection::Gateway(BadGateway),
        AuthFailure::JwtValidation => AuthRejection::Invalid(Unauthorized),
        AuthFailure::Unknown => AuthRejection::Invalid(Unauthorized),
    }
}

/// Whether a character counts as whitespace: a property of the character
/// alone.
pub uninterp spec fn spec_whitespace(c: char) -> bool;

/// Relies on `char::is_whitespace`: the `White_Space` property depends on
/// the character alone.
#[verifier::external_body]
fn char_is_whitespace(c: char) -> (b: bool)
    ensures
        b == spec_whitespace(c),
{
    c.is_whitespace()
}

/// Relies on `str::starts_with`: true exactly when the pattern's characters
/// open the string.
#[verifier::external_body]
fn str_starts_with(s: &str, prefix: &str) -> (b: bool)
    ensures
        b == (prefix@.len() <= s@.len() && s@.subrange(0, prefix@.len() as int) == prefix@),
{
    s.starts_with(prefix)
}

/// Whether the header opens with the bearer scheme's marker.
pub open spec fn spec_has_bearer_prefix(s: Seq<char>) -> bool {
    "Bearer"@.len() <= s.len() && s.subrange(0, "Bearer"@.len() as int) == "Bearer"@
}

/// Where the string ends once trailing whitespace is dropped.
pub open spec fn trimmed_end(s: Seq<char>) -> int
    decreases s.len(),
{
    if s.len() == 0 {
        0
    } else if !spec_whitespace(s[s.len() - 1]) {
        s.len() as int
    } else {
        trimmed_end(s.drop_last())
    }
}

/// Where the whitespace-free run ending at `e` begins.
pub open spec fn token_start(s: Seq<char>, e: int) -> int
    decreases e,
{
    if e <= 0 {
        0
    } else if spec_whitespace(s[e - 1]) {
        e
    } else {
        token_start(s, e - 1)
    }
}

/// The last whitespace-separated token of the string, if any.
pub open spec fn spec_last_token(s: Seq<char>) -> Option<Seq<char>> {
    let e = trimmed_end(s);
    if e == 0 {
        None
    } else {
        Some(s.subrange(token_start(s, e), e))
    }
}

/// The token to validate, read from what the caller sent: a value opening
/// with the bearer marker is taken apart and its last whitespace-separated
/// token used; anything else is taken whole.
pub fn extract_bearer_token(header: &str) -> (r: Option<String>)
    ensures
        !spec_has_bearer_prefix(header@) ==> (r matches Some(t) && t@ == header@),
        spec_has_bearer_prefix(header@) ==> match spec_last_token(header@) {
            Some(tk) => r matches Some(t) && t@ == tk,
            None => r is None,
        },
{
    if !str_starts_with(header, "Bearer") {
        return Some(header.to_owned());
    }
    let n = header.unicode_len();
    proof {
        assert(header@.take(n as int) =~= header@);
    }
    let mut e = n;
    while e > 0 && char_is_whitespace(header.get_char(e - 1))
        invariant
            e <= n == header@.len(),
            trimmed_end(header@.take(e as int)) == trimmed_end(header@),
        decreases e,
    {
        proof {
            assert(header@.take(e as int).drop_last() =~= header@.take(e - 1));
        }
        e = e - 1;
    }
    if e == 0 {
        return None;
    }
    proof {
        assert(trimmed_end(header@.take(e as int)) == e);
        assert(trimmed_end(header@) == e);
    }
    let mut st = e;
    while st > 0 && !char_is_whitespace(header.get_char(st - 1))
        invariant
            st <= e <= header@.len(),
            token_start(header@, e as int) == token_start(header@, st as int),
        decreases st,
    {
        st = st - 1;
    }
    proof {
        assert(token_start(header@, st as int) == st);
    }
    let token = header.substring_char(st, e);
    Some(token.to_owned())
}

/// One try at validating the token against one published key, by outcome
/// kind alone.
#[derive(Clone, Copy, PartialEq, Eq, Structural)]
pub enum JwtAttemptKind {
    /// The key verified the token.
    Verified,
    /// The token's signature was good but expired; the scan moves on.
    Expired,
    /// The try failed outright; its error is worth reporting.
    Failed,
}

/// Which try settles the scan.
#[derive(Debug, PartialEq, Eq, Structural)]
pub enum JwtChoice {
    /// The first verifying try: its claims are the answer.
    Accept(usize),
    /// No try verified: the last outright failure carries the error to
    /// report.
    Reject(usize),
    /// No try verified and none failed outright: nothing better than an
    /// unknown error is left to report.
    Unknown,
}

/// Scan the tries against each published key, in order: the first success
/// wins; failing that, the error kept is the last outright failure's, and
/// expired tries alone leave only the unknown error.
pub fn select_jwt_attempt(attempts: &Vec<JwtAttemptKind>) -> (r: JwtChoice)
    ensures
        match r {
            JwtChoice::Accept(i) => i < attempts@.len() && attempts@[i as int] is Verified
                && forall|j: int| 0 <= j < i ==> !((#[trigger] attempts@[j]) is Verified),
            JwtChoice::Reject(i) => i < attempts@.len() && attempts@[i as int] is Failed && (forall|
                j: int,
            | 0 <= j < attempts@.len() ==> !((#[trigger] attempts@[j]) is Verified)) && forall|
                j: int,
            | i < j < attempts@.len() ==> !((#[trigger] attempts@[j]) is Failed),
            JwtChoice::Unknown => forall|j: int|
                0 <= j < attempts@.len() ==> (#[trigger] attempts@[j]) is Expired,
        },
{
    let n = attempts.len();
    let mut last_failed: Option<usize> = None;
    for i in 0..n
        invariant
            n == attempts@.len(),
            forall|j: int| 0 <= j < i ==> !((#[trigger] attempts@[j]) is Verified),
            match last_failed {
                Some(f) => f < i && attempts@[f as int] is Failed && forall|j: int|
                    f < j < i ==> !((#[trigger] attempts@[j]) is Failed),
                None => forall|j: int| 0 <= j < i ==> !((#[trigger] attempts@[j]) is Failed),
            },
    {
        match attempts[i] {
            JwtAttemptKind::Verified => {
                return JwtChoice::Accept(i);
            },
            JwtAttemptKind::Failed => {
                last_failed = Some(i);
            },
            JwtAttemptKind::Expired => {},
        }
    }
    match last_failed {
        Some(f) => JwtChoice::Reject(f),
        None => JwtChoice::Unknown,
    }
}

/// Whether a byte rides through percent-encoding untouched: ASCII
/// alphanumerics and `-`, `.`, `_`, `~`.
pub open spec fn spec_url_safe_byte(b: u8) -> bool {
    ||| (48 <= b && b <= 57)
    ||| (65 <= b && b <= 90)
    ||| (97 <= b && b <= 122)
    ||| b == 45
    ||| b == 46
    ||| b == 95
    ||| b == 126
}

/// The uppercase hex digit for a value below sixteen.
pub open spec fn spec_hex_upper(d: u8) -> char
    recommends
        d < 16,
{
    if d < 10 {
        ((48 + d) as char)
    } else {
        ((55 + d) as char)
    }
}

/// The percent-encoding of a byte string: safe bytes ride through, every
/// other byte becomes `%` and two uppercase hex digits.
pub open spec fn spec_url_encoded(bytes: Seq<u8>) -> Seq<char>
    decreases bytes.len(),
{
    if bytes.len() == 0 {
        Seq::empty()
    } else {
        (if spec_url_safe_byte(bytes[0]) {
            seq![bytes[0] as char]
        } else {
            seq!['%', spec_hex_upper(bytes[0] / 16), spec_hex_upper(bytes[0] % 16)]
        }) + spec_url_encoded(bytes.drop_first())
    }
}

/// Relies on `urlencoding::encode`: percent-encodes every byte of the
/// UTF-8 form except ASCII alphanumerics and `-`, `.`, `_`, `~`, using
/// uppercase hex digits.
#[verifier::external_body]
fn url_encode(s: &str) -> (r: String)
    ensures
        r@ == spec_url_encoded(s.spec_bytes()),
{
    urlencoding::encode(s).into_owned()
}

/// The token-refresh request: the stored refresh token rides
/// percent-encoded, the client credentials as they are.
pub fn refresh_token_url(refresh_token: &str, client_id: &str, client_secret: &str) -> (r: String)
    ensures
        r@ == "https://id.twitch.tv/oauth2/token?grant_token=refresh_token&refresh_token="@
            + spec_url_encoded(refresh_token.spec_bytes()) + "&client_id="@ + client_id@
            + "&client_secret="@ + client_secret@,
{
    let mut r = String::from_str(
        "https://id.twitch.tv/oauth2/token?grant_token=refresh_token&refresh_token=",
    );
    let encoded = url_encode(refresh_token);
    r.append(encoded.as_str());
    r.append("&client_id=");
    r.append(client_id);
    r.append("&client_secret=");
    r.append(client_secret);
    r
}

/// The code-for-token exchange request of the login redirect, field for
/// field as the flow sends it.
pub fn authorization_code_url(
    client_id: &str,
    client_secret: &str,
    code: &str,
    redirect_uri: &str,
) -> (r: String)
    ensures
        r@ == "https://id.twitch.tv/oauth2/token?client_id="@ + client_id@ + "&client_secret="@
            + client_secret@ + "&code="@ + code@ + "&grant_type=authorization_code&redirect_uri="@
            + redirect_uri@,
{
    let mut r = String::from_str("https://id.twitch.tv/oauth2/token?client_id=");
    r.append(client_id);
    r.append("&client_secret=");
    r.append(client_secret);
    r.append("&code=");
    r.append(code);
    r.append("&grant_type=authorization_code&redirect_uri=");
    r.append(redirect_uri);
    r
}

} // verus!
