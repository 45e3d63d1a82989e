//! Endpoint parsing: turning the accepted textual forms of the target
//! webhook into one canonical URL, and rejecting everything else.
//!
//! Three forms are accepted: the full URL, the bare host-and-path form
//! (prefixed with the scheme), and a bare `id/token` pair (expanded to
//! the full URL). The canonical text is then also held against a real
//! URL parser before it is trusted.

use vstd::prelude::*;

verus! {

/// Why an endpoint argument was rejected.
#[derive(Clone, Copy, Debug, PartialEq, Eq, Structural)]
pub enum EndpointError {
    /// None of the accepted textual forms.
    InvalidFormat,
    /// Looked like an accepted form but does not parse as a URL.
    InvalidUrl,
}

impl EndpointError {
    /// Human-readable description of the rejection.
    pub fn message(&self) -> (m: String)
        ensures
            *self is InvalidFormat ==> m@
                == "invalid webhook format; expected a full https URL, a discord.com path, or an id/token pair"@,
            *self is InvalidUrl ==> m@ == "webhook endpoint is not a valid URL"@,
    {
        match self {
            EndpointError::InvalidFormat => String::from_str(
                "invalid webhook format; expected a full https URL, a discord.com path, or an id/token pair",
            ),
            EndpointError::InvalidUrl => String::from_str("webhook endpoint is not a valid URL"),
        }
    }
}

/// `p` is a prefix of `s`.
pub open spec fn has_prefix(s: Seq<char>, p: Seq<char>) -> bool {
    s.len() >= p.len() && s.subrange(0, p.len() as int) == p
}

/// An ASCII decimal digit.
pub open spec fn is_id_digit(c: char) -> bool {
    '0' <= c && c <= '9'
}

/// A character a webhook token may contain.
pub open spec fn is_token_char(c: char) -> bool {
    ||| ('a' <= c && c <= 'z')
    ||| ('A' <= c && c <= 'Z')
    ||| ('0' <= c && c <= '9')
    ||| c == '_'
    ||| c == '-'
}

/// The bare `id/token` form: one or more digits, one slash, one or
/// more token characters, and nothing else.
pub open spec fn id_token_form(s: Seq<char>) -> bool {
    exists|k: int|
        {
            &&& 1 <= k && k + 1 < s.len()
            &&& s[k] == '/'
            &&& (forall|j: int| 0 <= j < k ==> is_id_digit(#[trigger] s[j]))
            &&& (forall|j: int| k < j < s.len() ==> is_token_char(#[trigger] s[j]))
        }
}

pub open spec fn full_prefix() -> Seq<char> {
    "https://discord.com/api/webhooks/"@
}

pub open spec fn bare_prefix() -> Seq<char> {
    "discord.com/api/webhooks/"@
}

pub open spec fn scheme_prefix() -> Seq<char> {
    "https://"@
}

/// The canonical endpoint text an argument normalizes to, if any:
/// a full URL stands as given, an `id/token` pair is expanded, the
/// bare host-and-path form gains the scheme, and any other text is
/// rejected.
pub open spec fn normalized_endpoint(s: Seq<char>) -> Option<Seq<char>> {
    if has_prefix(s, full_prefix()) {
        Some(s)
    } else if id_token_form(s) {
        Some(full_prefix() + s)
    } else if has_prefix(s, bare_prefix()) {
        Some(scheme_prefix() + s)
    } else {
        None
    }
}

/// Relies on std's `str::starts_with`: true exactly when the second
/// text is a prefix of the first.
#[verifier::external_body]
fn str_starts_with(s: &str, p: &str) -> (r: bool)
    ensures
        r == has_prefix(s@, p@),
{
    s.starts_with(p)
}

/// Relies on `regex::Regex::is_match` with the anchored pattern
/// `^[0-9]+/[a-zA-Z0-9_-]+$`: a match is exactly the bare `id/token`
/// form. The pattern is a fixed valid literal, so compiling it cannot
/// fail.
#[verifier::external_body]
fn matches_id_token(s: &str) -> (r: bool)
    ensures
        r == id_token_form(s@),
{
    match regex::Regex::new(r"^[0-9]+/[a-zA-Z0-9_-]+$") {
        Ok(re) => re.is_match(s),
        Err(_) => false,
    }
}

/// Names whether `url::Url::parse` accepts a text as an absolute URL;
/// the verdict depends on the text alone.
pub uninterp spec fn url_well_formed(s: Seq<char>) -> bool;

/// Relies on `url::Url::parse`: returns whether the text parses as an
/// absolute URL.
#[verifier::external_body]
fn url_parses(s: &str) -> (r: bool)
    ensures
        r == url_well_formed(s@),
{
    url::Url::parse(s).is_ok()
}

/// Normalize the webhook argument to the canonical endpoint text, or
/// reject it when it is in none of the accepted forms.
pub fn parse_webhook_url(input: &str) -> (r: Result<String, EndpointError>)
    ensures
        (match normalized_endpoint(input@) {
            Some(u) => r matches Ok(out) && out@ == u,
            None => r == Err::<String, EndpointError>(EndpointError::InvalidFormat),
        }),
{
    if str_starts_with(input, "https://discord.com/api/webhooks/") {
        Ok(input.to_owned())
    } else if matches_id_token(input) {
        let mut out = String::from_str("https://discord.com/api/webhooks/");
        out.append(input);
        Ok(out)
    } else if str_starts_with(input, "discord.com/api/webhooks/") {
        let mut out = String::from_str("https://");
        out.append(input);
        Ok(out)
    } else {
        Err(EndpointError::InvalidFormat)
    }
}

/// Normalize the webhook argument and hold the canonical text against
/// a real URL parse: the full validation the program performs before
/// it enters the interactive loop.
pub fn validate_endpoint(input: &str) -> (r: Result<String, EndpointError>)
    ensures
        (match normalized_endpoint(input@) {
            Some(u) => {
                if url_well_formed(u) {
                    r matches Ok(out) && out@ == u
                } else {
                    r == Err::<String, EndpointError>(EndpointError::InvalidUrl)
                }
            },
            None => r == Err::<String, EndpointError>(EndpointError::InvalidFormat),
        }),
{
    match parse_webhook_url(input) {
        Ok(u) => {
            if url_parses(u.as_str()) {
                Ok(u)
            } else {
                Err(EndpointError::InvalidUrl)
            }
        },
        Err(e) => Err(e),
    }
}

} // verus!
