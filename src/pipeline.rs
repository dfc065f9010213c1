//! The authorization pipeline as a state machine: parse, verify, resolve,
//! issue, respond. Each phase names the outside work to do next; the caller
//! does it and hands the outcome back. Any failure ends in an error response.
use vstd::prelude::*;
use vstd::string::StringExecFns;
use crate::identity::{VerifyError, IdpReply, debug_token_url, debug_token_url_spec, get_fb_id, is_success_status};
use crate::resolver::{ResolveStep, ResolveError, StoreReply, lookup_request, create_request, lookup_query, create_query};
use crate::issuer::{IssueError, create_jwt, hs256_signed, claims_json_spec, SESSION_TTL_SECS};
use crate::json::{graphql_body_spec, error_body, error_body_spec, success_body, success_body_spec};

verus! {

/// The inbound request's `input` object: `{ "fbToken": ... }`.
#[derive(Debug, Clone)]
pub struct LoginInput {
    pub fb_token: String,
}

/// Query arguments of the login callback: `?access_token=...`.
#[derive(Debug, Clone)]
pub struct FBLoginCallbackQueryArgs {
    pub access_token: String,
}

/// Process-wide settings, read once at start-up and never changed.
#[derive(Debug, Clone)]
pub struct Config {
    /// Base URL of the identity provider's API.
    pub idp_base: String,
    /// The service's own credential at the identity provider.
    pub idp_admin_token: String,
    /// Symmetric key that signs session tokens.
    pub signing_secret: String,
    /// GraphQL endpoint of the user store.
    pub store_url: String,
    /// Admin secret sent with every store query.
    pub store_admin_secret: String,
    /// Lifetime of a session token, in seconds.
    pub session_ttl_secs: u64,
}

/// Why a request ends in an error response.
#[derive(Debug, Clone)]
pub enum PipelineError {
    Decode(String),
    Verify(VerifyError),
    Resolve(ResolveError),
    Issue(IssueError),
}

/// Where a request stands.
#[derive(Debug, Clone)]
pub enum Phase {
    /// Call the identity provider at `url`.
    Verify { url: String },
    /// Send `request` to the store, on behalf of resolution `step` of `subject`.
    Resolve { subject: String, step: ResolveStep, request: String },
    /// Read the clock and issue a token for `internal_id`.
    Issue { internal_id: String },
    Succeeded { body: String },
    Failed { error: PipelineError },
}

/// Drives the pipeline with a fixed configuration.
pub struct Authorizer {
    pub config: Config,
}

pub open spec fn verify_detail(e: VerifyError) -> Seq<char> {
    match e {
        VerifyError::TransportFailure(m) => "failed to get result: "@ + m@,
        VerifyError::UpstreamRejected(m) => m@,
        VerifyError::MalformedResponse(m) => "failed to decode json: "@ + m@,
        VerifyError::TokenInvalid(m) => m@,
    }
}

impl PipelineError {
    /// The diagnostic message of the error response. An ambiguous identity is
    /// reported to the operator, not to the caller.
    pub open spec fn message_spec(self) -> Seq<char> {
        match self {
            PipelineError::Decode(m) => "could not decode body: "@ + m@,
            PipelineError::Verify(e) => "get_fb_id failed: "@ + verify_detail(e),
            PipelineError::Resolve(ResolveError::RequestFailed(m)) => "user store request failed: "@ + m@,
            PipelineError::Resolve(ResolveError::AmbiguousIdentity(_)) => "Something went wrong"@,
            PipelineError::Resolve(ResolveError::ConcurrentCreateConflict(m)) => "failed to create user: "@
                + m@,
            PipelineError::Issue(IssueError::ClockFailure(m)) => "failed to issue token: "@ + m@,
            PipelineError::Issue(IssueError::SigningFailure(m)) => "failed to issue token: "@ + m@,
        }
    }

    pub fn message(&self) -> (r: String)
        ensures
            r@ == self.message_spec(),
    {
        match self {
            PipelineError::Decode(m) => joined("could not decode body: ", m),
            PipelineError::Verify(e) => {
                let detail = match e {
                    VerifyError::TransportFailure(m) => joined("failed to get result: ", m),
                    VerifyError::UpstreamRejected(m) => m.clone(),
                    VerifyError::MalformedResponse(m) => joined("failed to decode json: ", m),
                    VerifyError::TokenInvalid(m) => m.clone(),
                };
                joined("get_fb_id failed: ", &detail)
            },
            PipelineError::Resolve(ResolveError::RequestFailed(m)) => joined("user store request failed: ", m),
            PipelineError::Resolve(ResolveError::AmbiguousIdentity(_)) => {
                proof {
                    reveal_strlit("Something went wrong");
                }
                String::from_str("Something went wrong")
            },
            PipelineError::Resolve(ResolveError::ConcurrentCreateConflict(m)) => joined("failed to create user: ", m),
            PipelineError::Issue(IssueError::ClockFailure(m)) => joined("failed to issue token: ", m),
            PipelineError::Issue(IssueError::SigningFailure(m)) => joined("failed to issue token: ", m),
        }
    }

    /// Whether the error points at a broken store rather than at the caller.
    pub fn is_operator_alarm(&self) -> (r: bool)
        ensures
            r <==> (self matches PipelineError::Resolve(ResolveError::AmbiguousIdentity(_))
                || self matches PipelineError::Resolve(ResolveError::RequestFailed(_))),
    {
        match self {
            PipelineError::Resolve(ResolveError::AmbiguousIdentity(_)) => true,
            PipelineError::Resolve(ResolveError::RequestFailed(_)) => true,
            _ => false,
        }
    }
}

fn joined(prefix: &str, detail: &String) -> (r: String)
    ensures
        r@ == prefix@ + detail@,
{
    let mut out = String::from_str(prefix);
    out.append(detail.as_str());
    out
}

/// `r` is the phase that continues resolution `step` of `subject`.
pub open spec fn resolving_post(subject: String, step: ResolveStep, r: Phase) -> bool {
    match step {
        ResolveStep::Done(id) => r == Phase::Issue { internal_id: id },
        ResolveStep::Failed(e) => r == Phase::Failed { error: PipelineError::Resolve(e) },
        _ => match r {
            Phase::Resolve { subject: s, step: st, request } => {
                &&& s == subject
                &&& st == step
                &&& step is Create ==> request@ == graphql_body_spec("CreateUser"@, create_query(), subject@)
                &&& !(step is Create) ==> request@ == graphql_body_spec("GetUserId"@, lookup_query(), subject@)
            },
            _ => false,
        },
    }
}

/// `r` is the phase after the identity provider gave `reply`: each failure ends
/// the request with its own error, and a valid token starts the first lookup.
pub open spec fn idp_phase_post(reply: IdpReply, r: Phase) -> bool {
    match reply {
        IdpReply::Unreachable(m) => r == Phase::Failed {
            error: PipelineError::Verify(VerifyError::TransportFailure(m)),
        },
        IdpReply::Answered { status, payload } => if !is_success_status(status) {
            r matches Phase::Failed { error: PipelineError::Verify(VerifyError::UpstreamRejected(e)) }
                && e@ == "error while fetching debug_token"@
        } else {
            match payload {
                Err(m) => r == Phase::Failed { error: PipelineError::Verify(VerifyError::MalformedResponse(m)) },
                Ok(d) => if d.is_valid {
                    resolving_post(d.user_id, ResolveStep::Lookup, r)
                } else {
                    r matches Phase::Failed { error: PipelineError::Verify(VerifyError::TokenInvalid(e)) }
                        && e@ == "invalid access token"@
                },
            }
        },
    }
}

impl Phase {
    pub open spec fn is_terminal(self) -> bool {
        self is Succeeded || self is Failed
    }

    /// The status code and body to answer with, once the request has ended.
    pub fn response(&self) -> (r: Option<(u16, String)>)
        ensures
            !self.is_terminal() <==> r is None,
            self matches Phase::Succeeded { body } ==> (r matches Some((st, b)) && st == 200 && b == body),
            self matches Phase::Failed { error } ==> (r matches Some((st, b)) && st == 400 && b@
                == error_body_spec(error.message_spec())),
    {
        match self {
            Phase::Succeeded { body } => Some((200, body.clone())),
            Phase::Failed { error } => {
                let message = error.message();
                Some((400, error_body(message.as_str())))
            },
            _ => None,
        }
    }
}

impl Authorizer {
    pub fn new(config: Config) -> (r: Authorizer)
        ensures
            r.config == config,
    {
        Authorizer { config }
    }

    /// The first phase for a decoded request body, or the decoding error.
    pub fn begin(&self, input: Result<LoginInput, String>) -> (r: Phase)
        ensures
            match input {
                Err(m) => r == Phase::Failed { error: PipelineError::Decode(m) },
                Ok(i) => r matches Phase::Verify { url } && url@ == debug_token_url_spec(
                    self.config.idp_base@,
                    self.config.idp_admin_token@,
                    i.fb_token@,
                ),
            },
    {
        match input {
            Err(m) => Phase::Failed { error: PipelineError::Decode(m) },
            Ok(i) => Phase::Verify {
                url: debug_token_url(
                    self.config.idp_base.as_str(),
                    self.config.idp_admin_token.as_str(),
                    i.fb_token.as_str(),
                ),
            },
        }
    }

    fn resolving(subject: String, step: ResolveStep) -> (r: Phase)
        ensures
            resolving_post(subject, step, r),
    {
        match step {
            ResolveStep::Done(id) => Phase::Issue { internal_id: id },
            ResolveStep::Failed(e) => Phase::Failed { error: PipelineError::Resolve(e) },
            ResolveStep::Create => {
                let request = create_request(subject.as_str());
                Phase::Resolve { subject, step: ResolveStep::Create, request }
            },
            _ => {
                let request = lookup_request(subject.as_str());
                Phase::Resolve { subject, step, request }
            },
        }
    }

    /// The phase after verification: an error response, or the first lookup
    /// of the verified subject.
    pub fn after_verify(&self, verified: Result<String, VerifyError>) -> (r: Phase)
        ensures
            match verified {
                Err(e) => r == Phase::Failed { error: PipelineError::Verify(e) },
                Ok(subject) => resolving_post(subject, ResolveStep::Lookup, r),
            },
    {
        match verified {
            Err(e) => Phase::Failed { error: PipelineError::Verify(e) },
            Ok(subject) => Self::resolving(subject, ResolveStep::start()),
        }
    }

    /// The phase after the identity provider answered. A token the provider
    /// reports as invalid ends the request at once, with no store query.
    pub fn on_idp_reply(&self, reply: IdpReply) -> (r: Phase)
        ensures
            idp_phase_post(reply, r),
    {
        self.after_verify(get_fb_id(reply))
    }

    /// The phase after the store answered the pending query.
    pub fn on_store_reply(&self, phase: Phase, reply: StoreReply) -> (r: Phase)
        requires
            phase matches Phase::Resolve { step, .. } && step.expects(reply),
        ensures
            phase matches Phase::Resolve { subject, step, .. } && resolving_post(
                subject,
                step.next_spec(reply),
                r,
            ),
    {
        match phase {
            Phase::Resolve { subject, step, .. } => Self::resolving(subject, step.next(reply)),
            _ => phase,
        }
    }

    /// The final phase for `internal_id`, given the clock reading `now` in
    /// seconds since the Unix epoch (`None`: no clock).
    pub fn on_clock(&self, internal_id: &str, now: Option<u64>) -> (r: Phase)
        ensures
            r.is_terminal(),
            now is None ==> (r matches Phase::Failed { error: PipelineError::Issue(IssueError::ClockFailure(_)) }),
            now matches Some(t) ==> {
                &&& t + self.config.session_ttl_secs > u64::MAX ==> (r matches Phase::Failed {
                    error: PipelineError::Issue(IssueError::ClockFailure(_)),
                })
                &&& t + self.config.session_ttl_secs <= u64::MAX ==> match hs256_signed(
                    self.config.signing_secret@,
                    claims_json_spec(internal_id@, t as nat, (t + self.config.session_ttl_secs) as nat),
                ) {
                    Some(token) => r matches Phase::Succeeded { body } && body@ == success_body_spec(token),
                    None => r matches Phase::Failed { error: PipelineError::Issue(IssueError::SigningFailure(_)) },
                }
            },
    {
        match create_jwt(self.config.signing_secret.as_str(), internal_id, now, self.config.session_ttl_secs) {
            Err(e) => Phase::Failed { error: PipelineError::Issue(e) },
            Ok(token) => Phase::Succeeded { body: success_body(token.as_str()) },
        }
    }
}

impl Config {
    /// Settings with the provider's public API base and the default token lifetime.
    pub fn new(idp_admin_token: String, signing_secret: String, store_url: String, store_admin_secret: String) -> (r: Config)
        ensures
            r.idp_base@ == "https://graph.facebook.com"@,
            r.idp_admin_token == idp_admin_token,
            r.signing_secret == signing_secret,
            r.store_url == store_url,
            r.store_admin_secret == store_admin_secret,
            r.session_ttl_secs == SESSION_TTL_SECS,
    {
        proof {
            reveal_strlit("https://graph.facebook.com");
        }
        Config {
            idp_base: String::from_str("https://graph.facebook.com"),
            idp_admin_token,
            signing_secret,
            store_url,
            store_admin_secret,
            session_ttl_secs: SESSION_TTL_SECS,
        }
    }

    /// The same settings with another token lifetime.
    pub fn with_session_ttl(self, secs: u64) -> (r: Config)
        ensures
            r == (Config { session_ttl_secs: secs, ..self }),
    {
        Config { session_ttl_secs: secs, ..self }
    }
}

} // verus!
