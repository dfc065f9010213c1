//! Verification of a caller's access token with the identity provider's
//! token-introspection endpoint.
use vstd::prelude::*;
use vstd::string::StringExecFns;

verus! {

/// Why a token could not be turned into an external subject id.
#[derive(Debug, Clone)]
pub enum VerifyError {
    /// Network, DNS or TLS failure.
    TransportFailure(String),
    /// The provider answered with a non-2xx status.
    UpstreamRejected(String),
    /// The answer did not decode into the expected shape.
    MalformedResponse(String),
    /// The provider reports the token as invalid.
    TokenInvalid(String),
}

/// The part of the provider's `data` object this service reads.
#[derive(Debug, Clone)]
pub struct DebugTokenData {
    pub is_valid: bool,
    pub user_id: String,
}

/// What came back from the introspection request.
pub enum IdpReply {
    /// The request failed before an answer arrived.
    Unreachable(String),
    /// An answer with its status code, and its body decoded or the decoding error.
    Answered { status: u16, payload: Result<DebugTokenData, String> },
}

/// The `application/x-www-form-urlencoded` form of `s`.
pub uninterp spec fn form_encoded(s: Seq<char>) -> Seq<char>;

/// Relies on `url::form_urlencoded::byte_serialize`: the urlencoded form of
/// the UTF-8 bytes of `s`, which depends on `s` alone.
#[verifier::external_body]
fn url_encode(s: &str) -> (r: String)
    ensures
        r@ == form_encoded(s@),
{
    url::form_urlencoded::byte_serialize(s.as_bytes()).collect()
}

pub open spec fn debug_token_url_spec(idp_base: Seq<char>, admin_token: Seq<char>, user_token: Seq<char>) -> Seq<char> {
    idp_base + "/debug_token?input_token="@ + form_encoded(user_token) + "&access_token="@
        + form_encoded(admin_token)
}

/// The introspection URL that checks `user_token`, authenticated by the
/// service's own `admin_token`.
pub fn debug_token_url(idp_base: &str, admin_token: &str, user_token: &str) -> (r: String)
    ensures
        r@ == debug_token_url_spec(idp_base@, admin_token@, user_token@),
{
    let user_q = url_encode(user_token);
    let admin_q = url_encode(admin_token);
    let mut out = String::from_str(idp_base);
    out.append("/debug_token?input_token=");
    out.append(user_q.as_str());
    out.append("&access_token=");
    out.append(admin_q.as_str());
    proof {
        reveal_strlit("/debug_token?input_token=");
        reveal_strlit("&access_token=");
    }
    out
}

pub open spec fn is_success_status(status: u16) -> bool {
    200 <= status < 300
}

/// The external subject id if the provider answered with a success status and
/// marked the token valid; otherwise the matching error.
pub fn get_fb_id(reply: IdpReply) -> (r: Result<String, VerifyError>)
    ensures
        match reply {
            IdpReply::Unreachable(m) => r matches Err(VerifyError::TransportFailure(e)) && e == m,
            IdpReply::Answered { status, payload } => if !is_success_status(status) {
                r matches Err(VerifyError::UpstreamRejected(e)) && e@ == "error while fetching debug_token"@
            } else {
                match payload {
                    Err(m) => r matches Err(VerifyError::MalformedResponse(e)) && e == m,
                    Ok(data) => if data.is_valid {
                        r matches Ok(id) && id == data.user_id
                    } else {
                        r matches Err(VerifyError::TokenInvalid(e)) && e@ == "invalid access token"@
                    },
                }
            },
        },
{
    match reply {
        IdpReply::Unreachable(m) => Err(VerifyError::TransportFailure(m)),
        IdpReply::Answered { status, payload } => {
            if status < 200 || status >= 300 {
                proof {
                    reveal_strlit("error while fetching debug_token");
                }
                Err(VerifyError::UpstreamRejected(String::from_str("error while fetching debug_token")))
            } else {
                match payload {
                    Err(m) => Err(VerifyError::MalformedResponse(m)),
                    Ok(data) => {
                        if data.is_valid {
                            Ok(data.user_id)
                        } else {
                            proof {
                                reveal_strlit("invalid access token");
                            }
                            Err(VerifyError::TokenInvalid(String::from_str("invalid access token")))
                        }
                    },
                }
            }
        },
    }
}

} // verus!
