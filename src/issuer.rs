//! Minting of the signed, time-bounded session token for an internal user.
use vstd::prelude::*;
use vstd::string::StringExecFns;
use crate::json::{hex_char, json_quoted, quote};

verus! {

/// Default lifetime of a session token: twelve days, in seconds.
pub const SESSION_TTL_SECS: u64 = 1036800;

/// Why no session token was issued.
#[derive(Debug, Clone)]
pub enum IssueError {
    ClockFailure(String),
    SigningFailure(String),
}

/// The authorization facts carried by a session token.
#[derive(Debug, Clone)]
pub struct SessionClaims {
    pub subject: String,
    pub role: String,
    pub allowed_roles: Vec<String>,
    pub issued_at: u64,
    pub expires_at: u64,
}

/// The compact HS256 token that signs the JSON claims text `claims` with
/// `secret`; `None` where the claims text is not JSON.
pub uninterp spec fn hs256_signed(secret: Seq<char>, claims: Seq<char>) -> Option<Seq<char>>;

/// Relies on `jsonwebtoken::encode` with the default header (HS256) and the
/// key `EncodingKey::from_secret` builds from the secret's bytes. The claims
/// text is only converted to the `serde_json::value::RawValue` that `encode`
/// serialises verbatim; that conversion fails on text that is not JSON, and
/// nothing else fails for an HMAC key under the HS256 header. The outcome
/// depends on the secret and the claims text alone.
#[verifier::external_body]
fn sign_claims(secret: &str, claims: String) -> (r: Option<String>)
    ensures
        r is Some <==> hs256_signed(secret@, claims@) is Some,
        r matches Some(t) ==> hs256_signed(secret@, claims@) == Some(t@),
{
    let raw = serde_json::value::RawValue::from_string(claims).ok()?;
    let key = jsonwebtoken::EncodingKey::from_secret(secret.as_bytes());
    jsonwebtoken::encode(&jsonwebtoken::Header::default(), &raw, &key).ok()
}

/// The decimal digits of `n`, without leading zeros.
pub open spec fn decimal(n: nat) -> Seq<char>
    decreases n,
{
    if n < 10 {
        seq![hex_char(n)]
    } else {
        decimal(n / 10) + seq![hex_char(n % 10)]
    }
}

fn digit_str(d: u64) -> (r: &'static str)
    requires
        d < 10,
    ensures
        r@ == seq![hex_char(d as nat)],
{
    proof {
        reveal_strlit("0"); reveal_strlit("1"); reveal_strlit("2"); reveal_strlit("3");
        reveal_strlit("4"); reveal_strlit("5"); reveal_strlit("6"); reveal_strlit("7");
        reveal_strlit("8"); reveal_strlit("9");
    }
    if d == 0 { "0" } else if d == 1 { "1" } else if d == 2 { "2" } else if d == 3 { "3" }
    else if d == 4 { "4" } else if d == 5 { "5" } else if d == 6 { "6" } else if d == 7 { "7" }
    else if d == 8 { "8" } else { "9" }
}

/// Appends the decimal digits of `n` to `out`.
pub fn append_decimal(out: &mut String, n: u64)
    ensures
        final(out)@ == old(out)@ + decimal(n as nat),
    decreases n,
{
    if n >= 10 {
        append_decimal(out, n / 10);
    }
    out.append(digit_str(n % 10));
    proof {
        if n >= 10 {
            assert(old(out)@ + decimal(n as nat) == old(out)@ + decimal((n / 10) as nat) + seq![
                hex_char((n % 10) as nat),
            ]);
        }
    }
}

/// The claims text of a token for `subject`, role `user`, valid from `iat`
/// until `exp` (seconds since the Unix epoch).
pub open spec fn claims_json_spec(subject: Seq<char>, iat: nat, exp: nat) -> Seq<char> {
    "{\"https://hasura.io/jwt/claims\":{\"x-hasura-default-role\":\"user\",\"x-hasura-allowed-roles\":[\"user\"],\"x-hasura-user-id\":"@
        + json_quoted(subject) + "},\"iat\":"@ + decimal(iat) + ",\"exp\":"@ + decimal(exp) + "}"@
}

/// The claims for `internal_id` issued at `issued_at` and living `ttl`
/// seconds; `None` when the expiry does not fit in 64 bits.
pub fn session_claims(internal_id: &str, issued_at: u64, ttl: u64) -> (r: Option<SessionClaims>)
    ensures
        issued_at + ttl > u64::MAX <==> r is None,
        r matches Some(c) ==> {
            &&& c.subject@ == internal_id@
            &&& c.role@ == "user"@
            &&& c.allowed_roles@.len() == 1
            &&& c.allowed_roles@[0]@ == "user"@
            &&& c.issued_at == issued_at
            &&& c.expires_at - c.issued_at == ttl
        },
{
    let expires_at = issued_at.checked_add(ttl)?;
    proof {
        reveal_strlit("user");
    }
    let mut allowed_roles: Vec<String> = Vec::new();
    allowed_roles.push(String::from_str("user"));
    Some(SessionClaims {
        subject: String::from_str(internal_id),
        role: String::from_str("user"),
        allowed_roles,
        issued_at,
        expires_at,
    })
}

/// The claims text of `c` for the data layer: role and allowed roles under the
/// data layer's namespaced key.
pub fn claims_json(c: &SessionClaims) -> (r: String)
    ensures
        r@ == claims_json_spec(
            c.subject@,
            c.issued_at as nat,
            c.expires_at as nat,
        ),
{
    let sub_q = quote(c.subject.as_str());
    let mut out = String::from_str(
        "{\"https://hasura.io/jwt/claims\":{\"x-hasura-default-role\":\"user\",\"x-hasura-allowed-roles\":[\"user\"],\"x-hasura-user-id\":",
    );
    out.append(sub_q.as_str());
    out.append("},\"iat\":");
    append_decimal(&mut out, c.issued_at);
    out.append(",\"exp\":");
    append_decimal(&mut out, c.expires_at);
    out.append("}");
    proof {
        reveal_strlit(
            "{\"https://hasura.io/jwt/claims\":{\"x-hasura-default-role\":\"user\",\"x-hasura-allowed-roles\":[\"user\"],\"x-hasura-user-id\":",
        );
        reveal_strlit("},\"iat\":");
        reveal_strlit(",\"exp\":");
        reveal_strlit("}");
    }
    out
}

/// A signed session token for `user_id`, issued at clock reading `now`
/// (`None`: the clock was unavailable) and living `ttl` seconds.
pub fn create_jwt(jwt_secret: &str, user_id: &str, now: Option<u64>, ttl: u64) -> (r: Result<
    String,
    IssueError,
>)
    ensures
        now is None ==> (r matches Err(IssueError::ClockFailure(_))),
        now matches Some(t) ==> {
            &&& t + ttl > u64::MAX ==> (r matches Err(IssueError::ClockFailure(_)))
            &&& t + ttl <= u64::MAX ==> match hs256_signed(
                jwt_secret@,
                claims_json_spec(user_id@, t as nat, (t + ttl) as nat),
            ) {
                Some(token) => r matches Ok(x) && x@ == token,
                None => r matches Err(IssueError::SigningFailure(_)),
            }
        },
{
    let t = match now {
        Some(t) => t,
        None => {
            return Err(IssueError::ClockFailure(String::from_str("system time is unavailable")));
        },
    };
    let claims = match session_claims(user_id, t, ttl) {
        Some(c) => c,
        None => {
            return Err(IssueError::ClockFailure(String::from_str("token expiry is out of range")));
        },
    };
    let text = claims_json(&claims);
    match sign_claims(jwt_secret, text) {
        Some(token) => Ok(token),
        None => Err(IssueError::SigningFailure(String::from_str("could not sign claims"))),
    }
}

} // verus!
