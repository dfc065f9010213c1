//! Get-or-create of the internal user for an external identity, against a
//! store that offers lookup and insert but no atomic upsert.
use vstd::prelude::*;
use vstd::string::StringExecFns;
use crate::json::{graphql_body, graphql_body_spec};

verus! {

/// Failure of a user lookup.
#[derive(Debug, Clone)]
pub enum GetErrors {
    RequestFailed(String),
    NoUsersFound(String),
    TooManyUsersFound(String),
}

/// Failure of a user insert.
#[derive(Debug, Clone)]
pub enum CreateErrors {
    RequestFailed(String),
    UsersExists(String),
}

/// Failure of the whole resolution.
#[derive(Debug, Clone)]
pub enum ResolveError {
    RequestFailed(String),
    AmbiguousIdentity(String),
    ConcurrentCreateConflict(String),
}

/// What the store sent back for a lookup.
pub enum LookupReply {
    /// The request, the body read or its decoding failed.
    Failed(String),
    /// The decoded `users` list (their ids) and the raw body.
    Users { raw_body: String, ids: Vec<String> },
}

/// What the store sent back for an insert.
pub enum CreateReply {
    /// The request, the body read or its decoding failed.
    Failed(String),
    /// The id of the inserted record.
    Created(String),
    /// The store refused the insert with these error codes.
    Rejected { raw_body: String, codes: Vec<String> },
}

/// A lookup or insert result, as handed to the resolution state machine.
pub enum StoreReply {
    Lookup(Result<String, GetErrors>),
    Create(Result<String, CreateErrors>),
}

/// Where a resolution stands: the query to run next, or its outcome.
#[derive(Debug, Clone)]
pub enum ResolveStep {
    /// First lookup.
    Lookup,
    /// Insert after a lookup that found nobody.
    Create,
    /// The single lookup after an insert lost a uniqueness race.
    Relookup,
    Done(String),
    Failed(ResolveError),
}

/// The error code the store gives to an insert that breaks a uniqueness constraint.
pub open spec fn uniqueness_code() -> Seq<char> {
    "constraint-violation"@
}

pub open spec fn lookup_query() -> Seq<char> {
    "query GetUserId ($facebook_id: String!) { users(where: {facebook_id: {_eq: $facebook_id}}) { id }}"@
}

pub open spec fn create_query() -> Seq<char> {
    "mutation CreateUser($facebook_id: String) { insert_users_one(object: {facebook_id: $facebook_id}) { id } } "@
}

/// An error that reports a failed request.
pub fn to_get_req_failed<T>(err: String) -> (r: Result<T, GetErrors>)
    ensures
        r matches Err(GetErrors::RequestFailed(m)) && m == err,
{
    Err(GetErrors::RequestFailed(err))
}

/// An error that reports a failed request.
pub fn to_create_req_failed<T>(err: String) -> (r: Result<T, CreateErrors>)
    ensures
        r matches Err(CreateErrors::RequestFailed(m)) && m == err,
{
    Err(CreateErrors::RequestFailed(err))
}

/// The request document that looks up the users linked to `facebook_id`.
pub fn lookup_request(facebook_id: &str) -> (r: String)
    ensures
        r@ == graphql_body_spec("GetUserId"@, lookup_query(), facebook_id@),
{
    proof {
        reveal_strlit("GetUserId");
        reveal_strlit(
            "query GetUserId ($facebook_id: String!) { users(where: {facebook_id: {_eq: $facebook_id}}) { id }}",
        );
    }
    graphql_body(
        "GetUserId",
        "query GetUserId ($facebook_id: String!) { users(where: {facebook_id: {_eq: $facebook_id}}) { id }}",
        facebook_id,
    )
}

/// The request document that inserts a user linked to `facebook_id`.
pub fn create_request(facebook_id: &str) -> (r: String)
    ensures
        r@ == graphql_body_spec("CreateUser"@, create_query(), facebook_id@),
{
    proof {
        reveal_strlit("CreateUser");
        reveal_strlit(
            "mutation CreateUser($facebook_id: String) { insert_users_one(object: {facebook_id: $facebook_id}) { id } } ",
        );
    }
    graphql_body(
        "CreateUser",
        "mutation CreateUser($facebook_id: String) { insert_users_one(object: {facebook_id: $facebook_id}) { id } } ",
        facebook_id,
    )
}

/// The internal id from a lookup reply: exactly one user is a success, none
/// or several are distinct errors.
pub fn get_user_id(reply: LookupReply) -> (r: Result<String, GetErrors>)
    ensures
        match reply {
            LookupReply::Failed(m) => r matches Err(GetErrors::RequestFailed(e)) && e == m,
            LookupReply::Users { raw_body, ids } => {
                &&& ids@.len() == 1 ==> (r matches Ok(id) && id == ids@[0])
                &&& ids@.len() == 0 ==> (r matches Err(GetErrors::NoUsersFound(e))
                    && e@ == "no users found in: "@ + raw_body@)
                &&& ids@.len() >= 2 ==> (r matches Err(GetErrors::TooManyUsersFound(e))
                    && e@ == "too many users found in : "@ + raw_body@)
            },
        },
{
    match reply {
        LookupReply::Failed(m) => to_get_req_failed(m),
        LookupReply::Users { raw_body, ids } => {
            let mut ids = ids;
            if ids.len() == 1 {
                Ok(ids.remove(0))
            } else if ids.len() == 0 {
                let mut e = String::from_str("no users found in: ");
                e.append(raw_body.as_str());
                proof {
                    reveal_strlit("no users found in: ");
                }
                Err(GetErrors::NoUsersFound(e))
            } else {
                let mut e = String::from_str("too many users found in : ");
                e.append(raw_body.as_str());
                proof {
                    reveal_strlit("too many users found in : ");
                }
                Err(GetErrors::TooManyUsersFound(e))
            }
        },
    }
}

/// Whether some code in `codes` is the uniqueness-violation code.
pub open spec fn has_uniqueness_code(codes: Seq<String>) -> bool {
    exists|i: int| 0 <= i < codes.len() && codes[i]@ == uniqueness_code()
}

/// The internal id from an insert reply; a uniqueness violation is told apart
/// from other failures.
pub fn create_user(reply: CreateReply) -> (r: Result<String, CreateErrors>)
    ensures
        match reply {
            CreateReply::Failed(m) => r matches Err(CreateErrors::RequestFailed(e)) && e == m,
            CreateReply::Created(id) => r matches Ok(i) && i == id,
            CreateReply::Rejected { raw_body, codes } => {
                &&& has_uniqueness_code(codes@) ==> (r matches Err(CreateErrors::UsersExists(e))
                    && e == raw_body)
                &&& !has_uniqueness_code(codes@) ==> (r matches Err(CreateErrors::RequestFailed(e))
                    && e == raw_body)
            },
        },
{
    match reply {
        CreateReply::Failed(m) => to_create_req_failed(m),
        CreateReply::Created(id) => Ok(id),
        CreateReply::Rejected { raw_body, codes } => {
            let target = String::from_str("constraint-violation");
            proof {
                reveal_strlit("constraint-violation");
            }
            let mut i: usize = 0;
            let mut found = false;
            while i < codes.len()
                invariant
                    i <= codes@.len(),
                    target@ == uniqueness_code(),
                    found <==> exists|j: int| 0 <= j < i && codes@[j]@ == uniqueness_code(),
                decreases codes@.len() - i,
            {
                if codes[i] == target {
                    found = true;
                }
                i = i + 1;
            }
            if found {
                Err(CreateErrors::UsersExists(raw_body))
            } else {
                to_create_req_failed(raw_body)
            }
        },
    }
}

impl ResolveStep {
    pub open spec fn is_terminal(self) -> bool {
        self is Done || self is Failed
    }

    /// Whether `reply` answers the query this step asks for.
    pub open spec fn expects(self, reply: StoreReply) -> bool {
        match self {
            ResolveStep::Lookup | ResolveStep::Relookup => reply is Lookup,
            ResolveStep::Create => reply is Create,
            _ => false,
        }
    }

    /// The step after a lookup (`retried`: after a lost insert race) or an insert.
    pub open spec fn next_spec(self, reply: StoreReply) -> ResolveStep {
        match reply {
            StoreReply::Lookup(res) => match res {
                Ok(id) => ResolveStep::Done(id),
                Err(GetErrors::RequestFailed(m)) => ResolveStep::Failed(ResolveError::RequestFailed(m)),
                Err(GetErrors::TooManyUsersFound(m)) => ResolveStep::Failed(
                    ResolveError::AmbiguousIdentity(m),
                ),
                Err(GetErrors::NoUsersFound(m)) => if self is Relookup {
                    ResolveStep::Failed(ResolveError::ConcurrentCreateConflict(m))
                } else {
                    ResolveStep::Create
                },
            },
            StoreReply::Create(res) => match res {
                Ok(id) => ResolveStep::Done(id),
                Err(CreateErrors::UsersExists(_)) => ResolveStep::Relookup,
                Err(CreateErrors::RequestFailed(m)) => ResolveStep::Failed(
                    ResolveError::RequestFailed(m),
                ),
            },
        }
    }

    /// The first step of every resolution.
    pub fn start() -> (r: ResolveStep)
        ensures
            r is Lookup,
    {
        ResolveStep::Lookup
    }

    /// Advances the resolution by the store's answer to the pending query.
    /// One user found ends it; none found leads to an insert, or, after a lost
    /// insert race, to giving up; several found end it as ambiguous; an insert
    /// that lost the race leads to exactly one more lookup.
    pub fn next(self, reply: StoreReply) -> (r: ResolveStep)
        requires
            self.expects(reply),
        ensures
            r == self.next_spec(reply),
    {
        let retried = match self {
            ResolveStep::Relookup => true,
            _ => false,
        };
        match reply {
            StoreReply::Lookup(res) => match res {
                Ok(id) => ResolveStep::Done(id),
                Err(GetErrors::RequestFailed(m)) => ResolveStep::Failed(ResolveError::RequestFailed(m)),
                Err(GetErrors::TooManyUsersFound(m)) => ResolveStep::Failed(
                    ResolveError::AmbiguousIdentity(m),
                ),
                Err(GetErrors::NoUsersFound(m)) => if retried {
                    ResolveStep::Failed(ResolveError::ConcurrentCreateConflict(m))
                } else {
                    ResolveStep::Create
                },
            },
            StoreReply::Create(res) => match res {
                Ok(id) => ResolveStep::Done(id),
                Err(CreateErrors::UsersExists(_)) => ResolveStep::Relookup,
                Err(CreateErrors::RequestFailed(m)) => ResolveStep::Failed(
                    ResolveError::RequestFailed(m),
                ),
            },
        }
    }
}

/// A record of the store: an internal user linked to an external subject.
pub struct UserRecord {
    pub internal_id: String,
    pub external_subject_id: String,
}

/// The internal ids of the records for external subject `x`, in store order.
pub open spec fn ids_for(store: Seq<UserRecord>, x: Seq<char>) -> Seq<Seq<char>>
    decreases store.len(),
{
    if store.len() == 0 {
        seq![]
    } else {
        let rest = ids_for(store.drop_last(), x);
        if store.last().external_subject_id@ == x {
            rest.push(store.last().internal_id@)
        } else {
            rest
        }
    }
}

/// `res` is what a working store answers to a lookup for `x`.
pub open spec fn lookup_answer(store: Seq<UserRecord>, x: Seq<char>, res: Result<String, GetErrors>) -> bool {
    let ids = ids_for(store, x);
    &&& ids.len() == 0 ==> (res matches Err(GetErrors::NoUsersFound(_)))
    &&& ids.len() == 1 ==> (res matches Ok(id) && id@ == ids[0])
    &&& ids.len() >= 2 ==> (res matches Err(GetErrors::TooManyUsersFound(_)))
}

/// `res` is what a working store that keeps external subjects unique answers
/// to an insert for `x`.
pub open spec fn create_answer(store: Seq<UserRecord>, x: Seq<char>, res: Result<String, CreateErrors>) -> bool {
    if ids_for(store, x).len() == 0 {
        res is Ok
    } else {
        res matches Err(CreateErrors::UsersExists(_))
    }
}

/// The store after it gave `reply` to a query for `x`.
pub open spec fn store_after(store: Seq<UserRecord>, x: String, reply: StoreReply) -> Seq<UserRecord> {
    match reply {
        StoreReply::Create(Ok(id)) => store.push(UserRecord { internal_id: id, external_subject_id: x }),
        _ => store,
    }
}

/// `reply` is a working store's answer to the query that `step` asks for.
pub open spec fn store_answers(store: Seq<UserRecord>, x: String, step: ResolveStep, reply: StoreReply) -> bool {
    match step {
        ResolveStep::Lookup | ResolveStep::Relookup => (reply matches StoreReply::Lookup(res)
            && lookup_answer(store, x@, res)),
        ResolveStep::Create => (reply matches StoreReply::Create(res) && create_answer(store, x@, res)),
        _ => false,
    }
}

/// A complete resolution of `x` from `step`, the store answering `replies`
/// with no other writer in between; it ends at `last` with the store at `end`.
pub open spec fn serial_run(
    store: Seq<UserRecord>,
    x: String,
    step: ResolveStep,
    replies: Seq<StoreReply>,
    last: ResolveStep,
    end: Seq<UserRecord>,
) -> bool
    decreases replies.len(),
{
    if replies.len() == 0 {
        &&& step.is_terminal()
        &&& last == step
        &&& end == store
    } else {
        &&& store_answers(store, x, step, replies[0])
        &&& serial_run(
            store_after(store, x, replies[0]),
            x,
            step.next_spec(replies[0]),
            replies.drop_first(),
            last,
            end,
        )
    }
}

proof fn lemma_ids_for_push(store: Seq<UserRecord>, x: String, id: String)
    ensures
        ids_for(store.push(UserRecord { internal_id: id, external_subject_id: x }), x@)
            == ids_for(store, x@).push(id@),
{
    assert(store.push(UserRecord { internal_id: id, external_subject_id: x }).drop_last() == store);
}

/// From a store with at most one record for `x`, a complete serial resolution
/// ends with the single internal id for `x`, and the store then holds exactly
/// one record for `x`.
proof fn lemma_serial_resolution(
    store: Seq<UserRecord>,
    x: String,
    replies: Seq<StoreReply>,
    last: ResolveStep,
    end: Seq<UserRecord>,
)
    requires
        ids_for(store, x@).len() <= 1,
        serial_run(store, x, ResolveStep::Lookup, replies, last, end),
    ensures
        ids_for(end, x@).len() == 1,
        last matches ResolveStep::Done(id) && id@ == ids_for(end, x@)[0],
        ids_for(store, x@).len() == 1 ==> end == store,
{
    reveal_with_fuel(serial_run, 4);
    let r0 = replies[0];
    let s1 = store_after(store, x, r0);
    let step1 = ResolveStep::Lookup.next_spec(r0);
    if ids_for(store, x@).len() == 1 {
        assert(replies.drop_first().len() == 0);
    } else {
        assert(step1 is Create);
        let rest = replies.drop_first();
        let r1 = rest[0];
        assert(r1 matches StoreReply::Create(Ok(_)));
        if let StoreReply::Create(Ok(id)) = r1 {
            lemma_ids_for_push(s1, x, id);
        }
        assert(rest.drop_first().len() == 0);
    }
}

/// Resolving the same external identity twice in a row, with no other writer,
/// returns the same internal id both times and leaves exactly one record for it.
pub proof fn lemma_resolve_idempotent(
    store: Seq<UserRecord>,
    x: String,
    first: Seq<StoreReply>,
    last1: ResolveStep,
    mid: Seq<UserRecord>,
    second: Seq<StoreReply>,
    last2: ResolveStep,
    end: Seq<UserRecord>,
)
    requires
        ids_for(store, x@).len() <= 1,
        serial_run(store, x, ResolveStep::Lookup, first, last1, mid),
        serial_run(mid, x, ResolveStep::Lookup, second, last2, end),
    ensures
        last1 matches ResolveStep::Done(a) && last2 matches ResolveStep::Done(b) && a@ == b@,
        ids_for(end, x@).len() == 1,
{
    lemma_serial_resolution(store, x, first, last1, mid);
    lemma_serial_resolution(mid, x, second, last2, end);
}

/// Two resolutions of `x` that both find no record and both try to insert:
/// the insert that reaches the store first succeeds, the other meets the
/// uniqueness violation, looks up once more, and both end with the same
/// internal id, with exactly one record for `x` in the store.
pub proof fn lemma_concurrent_create(
    store: Seq<UserRecord>,
    x: String,
    lookup_a: Result<String, GetErrors>,
    lookup_b: Result<String, GetErrors>,
    create_a: Result<String, CreateErrors>,
    create_b: Result<String, CreateErrors>,
    relookup_b: Result<String, GetErrors>,
)
    requires
        ids_for(store, x@).len() == 0,
        lookup_answer(store, x@, lookup_a),
        lookup_answer(store, x@, lookup_b),
        create_answer(store, x@, create_a),
        create_answer(store_after(store, x, StoreReply::Create(create_a)), x@, create_b),
        lookup_answer(
            store_after(store_after(store, x, StoreReply::Create(create_a)), x, StoreReply::Create(create_b)),
            x@,
            relookup_b,
        ),
    ensures
        ResolveStep::Lookup.next_spec(StoreReply::Lookup(lookup_a)) is Create,
        ResolveStep::Lookup.next_spec(StoreReply::Lookup(lookup_b)) is Create,
        create_a is Ok,
        create_b matches Err(CreateErrors::UsersExists(_)),
        ResolveStep::Create.next_spec(StoreReply::Create(create_b)) is Relookup,
        ResolveStep::Create.next_spec(StoreReply::Create(create_a)) matches ResolveStep::Done(a)
            && ResolveStep::Relookup.next_spec(StoreReply::Lookup(relookup_b)) matches ResolveStep::Done(b)
            && a@ == b@,
        ids_for(
            store_after(store_after(store, x, StoreReply::Create(create_a)), x, StoreReply::Create(create_b)),
            x@,
        ).len() == 1,
{
    if let Ok(id) = create_a {
        lemma_ids_for_push(store, x, id);
    }
}

/// When the store holds two or more records for `x`, a resolution of `x`
/// fails as ambiguous and returns no internal id.
pub proof fn lemma_ambiguity_fails(
    store: Seq<UserRecord>,
    x: String,
    replies: Seq<StoreReply>,
    last: ResolveStep,
    end: Seq<UserRecord>,
)
    requires
        ids_for(store, x@).len() >= 2,
        serial_run(store, x, ResolveStep::Lookup, replies, last, end),
    ensures
        last matches ResolveStep::Failed(ResolveError::AmbiguousIdentity(_)),
        !(last is Done),
{
    reveal_with_fuel(serial_run, 2);
    assert(replies.drop_first().len() == 0);
}

} // verus!
