//! What one call to the API sends: the JSON body and the authorization
//! header.
use vstd::prelude::*;

use crate::json::{member, member_in, Json};

verus! {

/// One GraphQL call: the query text and its variables, by name.
#[derive(Debug)]
pub struct RequestEnvelope {
    pub query: String,
    pub variables: Option<Vec<(String, Json)>>,
}

/// The body sent for a query and its variables: an object with the query
/// under `query` and, where there are variables, an object of them under
/// `variables`.
pub open spec fn is_request_body(
    query: Seq<char>,
    variables: Option<Vec<(String, Json)>>,
    body: Json,
) -> bool {
    &&& body matches Json::Object(members)
    &&& members@.len() == if variables is Some { 2int } else { 1int }
    &&& members@[0].0@ == "query"@
    &&& members@[0].1 matches Json::Str(q) && q@ == query
    &&& variables is Some ==> members@[1].0@ == "variables"@ && members@[1].1 == Json::Object(
        variables->Some_0,
    )
}

impl RequestEnvelope {
    /// A call of `query` with `variables`.
    pub fn new(query: String, variables: Option<Vec<(String, Json)>>) -> (r: Self)
        ensures
            r.query == query,
            r.variables == variables,
    {
        RequestEnvelope { query, variables }
    }

    /// The JSON body of the call.
    pub fn into_body(self) -> (r: Json)
        ensures
            is_request_body(self.query@, self.variables, r),
    {
        let mut members: Vec<(String, Json)> = Vec::new();
        members.push((String::from_str("query"), Json::Str(self.query)));
        match self.variables {
            Some(vars) => {
                members.push((String::from_str("variables"), Json::Object(vars)));
            },
            None => {},
        }
        Json::Object(members)
    }
}

/// The value of the `Authorization` header for a token.
pub fn bearer_header(token: &str) -> (r: String)
    ensures
        r@ == "Bearer "@ + token@,
{
    let mut r = String::from_str("Bearer ");
    r.append(token);
    r
}

/// Seconds in a day.
pub const SECONDS_PER_DAY: u64 = 86400;

/// The start and the end, in seconds since the epoch, of the UTC day that
/// holds the instant `now`.
pub fn day_bounds(now: u64) -> (r: (u64, u64))
    requires
        now <= u64::MAX - SECONDS_PER_DAY,
    ensures
        r.0 == now - now % SECONDS_PER_DAY,
        r.1 == r.0 + SECONDS_PER_DAY,
        r.0 <= now < r.1,
        r.0 % SECONDS_PER_DAY == 0,
{
    let start = now - now % SECONDS_PER_DAY;
    assert(start % SECONDS_PER_DAY == 0) by (nonlinear_arith)
        requires
            start == now - now % 86400,
            now >= 0,
    ;
    (start, start + SECONDS_PER_DAY)
}

/// A request body carries the query under `query` and the variables, as
/// one object, under `variables`.
pub proof fn lemma_request_body_round_trip(
    query: Seq<char>,
    variables: Option<Vec<(String, Json)>>,
    body: Json,
)
    requires
        is_request_body(query, variables, body),
    ensures
        member(body, "query"@) matches Some(Json::Str(q)) && q@ == query,
        match variables {
            Some(vars) => member(body, "variables"@) == Some(Json::Object(vars)),
            None => member(body, "variables"@) is None,
        },
{
    let members = body->Object_0@;
    assert(members[0].0@ == "query"@);
    reveal_strlit("query");
    reveal_strlit("variables");
    assert("query"@ != "variables"@) by {
        assert("query"@[0] != "variables"@[0]);
    }
    if variables is Some {
        let rest = members.drop_first();
        assert(rest[0] == members[1]);
        assert(member_in(rest, "variables"@) == Some(members[1].1));
        assert(member_in(members, "variables"@) == member_in(rest, "variables"@));
    } else {
        assert(members.drop_first().len() == 0);
        assert(member_in(members.drop_first(), "variables"@) is None);
        assert(member(body, "variables"@) == member_in(members, "variables"@));
    }
}

} // verus!
