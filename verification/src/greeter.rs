//! The "say hello" operation.
//!
//! One remote operation: ignore the request payload, look one row up in the
//! greetings relation, and reply with its message. Every failure of the
//! lookup collapses into a single generic internal error, so a caller cannot
//! tell an empty relation from an unreachable store.
//!
//! The query round-trip is asynchronous I/O and runs in the embedding
//! binary; it hands the outcome of the one fixed query to [`say_hello`] as a
//! plain value, and the decision logic here is verified for every outcome.

use vstd::prelude::*;

verus! {

/// A request to the "say hello" operation. Its payload carries no field that
/// the handler consumes.
pub struct HelloRequest {}

/// A reply from the "say hello" operation: one text field, copied verbatim
/// from the greeting row that the lookup found.
pub struct HelloReply {
    pub message: String,
}

/// What one execution of the fixed single-row scan over the greetings
/// relation produced.
pub enum FetchOutcome {
    /// The store handed a row back; the value is its message column.
    Row(String),
    /// The query ran, but the greetings relation held no rows.
    NoRows,
    /// No connection could be acquired, or the query itself failed.
    Failed,
}

/// The one failure a caller of "say hello" can observe. The underlying
/// cause is deliberately hidden: it is logged server-side and never encoded
/// in the response.
#[derive(Debug, PartialEq, Eq, Structural)]
pub enum SayHelloError {
    /// The generic internal-error outcome.
    Internal,
}

/// The message of the row the store handed back, if it handed one back.
pub open spec fn outcome_message(o: FetchOutcome) -> Option<Seq<char>> {
    match o {
        FetchOutcome::Row(m) => Some(m@),
        FetchOutcome::NoRows => None,
        FetchOutcome::Failed => None,
    }
}

/// Which outcomes a reachable store can yield when the greetings relation
/// holds the rows `rel`: an empty relation yields no rows; a non-empty one
/// yields the message of some row. Which row is left open on purpose: the
/// scan has no ordering clause, so "the first row" is whatever the store's
/// default order produces.
pub open spec fn store_yields(rel: Seq<Seq<char>>, o: FetchOutcome) -> bool {
    if rel.len() == 0 {
        o is NoRows
    } else {
        exists|i: int| 0 <= i < rel.len() && outcome_message(o) == Some(rel[i])
    }
}

/// What "say hello" returns for each lookup outcome: a reply carrying the
/// located message on success, the one generic internal error otherwise.
pub open spec fn say_hello_post(o: FetchOutcome, r: Result<HelloReply, SayHelloError>) -> bool {
    match o {
        FetchOutcome::Row(m) => r matches Ok(reply) && reply.message@ == m@,
        FetchOutcome::NoRows => r matches Err(e) && e is Internal,
        FetchOutcome::Failed => r matches Err(e) && e is Internal,
    }
}

/// The "say hello" operation: ignores its request payload, consumes the
/// outcome of the greeting lookup, and either copies the located message
/// verbatim into the reply or collapses the failure into the generic
/// internal error. The request does not appear in [`say_hello_post`]: the
/// result is the same for every request payload.
pub fn say_hello(_request: &HelloRequest, outcome: FetchOutcome) -> (r: Result<
    HelloReply,
    SayHelloError,
>)
    ensures
        say_hello_post(outcome, r),
{
    match outcome {
        FetchOutcome::Row(message) => Ok(HelloReply { message }),
        FetchOutcome::NoRows => Err(SayHelloError::Internal),
        FetchOutcome::Failed => Err(SayHelloError::Internal),
    }
}

impl SayHelloError {
    /// The wire-level description of the failure: one fixed text for every
    /// cause, so no detail about the store leaks to the caller.
    pub fn status_message(&self) -> (r: String)
        ensures
            r@ == "Database error"@,
    {
        String::from_str("Database error")
    }
}

/// Law: for every greetings relation with at least one row, and every
/// outcome such a relation can yield on a reachable store, "say hello"
/// succeeds and its reply's message equals the message of some row of the
/// relation.
pub proof fn lemma_nonempty_relation_replies_with_a_row(
    rel: Seq<Seq<char>>,
    o: FetchOutcome,
    r: Result<HelloReply, SayHelloError>,
)
    requires
        rel.len() > 0,
        store_yields(rel, o),
        say_hello_post(o, r),
    ensures
        r is Ok,
        exists|i: int| 0 <= i < rel.len() && r->Ok_0.message@ == rel[i],
{
    let i = choose|i: int| 0 <= i < rel.len() && outcome_message(o) == Some(rel[i]);
    assert(0 <= i < rel.len() && r->Ok_0.message@ == rel[i]);
}

/// Law: for an empty greetings relation, "say hello" returns the internal
/// error; in particular it never returns a successful empty-message reply.
pub proof fn lemma_empty_relation_is_internal_error(
    rel: Seq<Seq<char>>,
    o: FetchOutcome,
    r: Result<HelloReply, SayHelloError>,
)
    requires
        rel.len() == 0,
        store_yields(rel, o),
        say_hello_post(o, r),
    ensures
        r matches Err(e) && e is Internal,
        !(r is Ok),
{
}

/// Law: when the store is unreachable at call time the lookup fails, and
/// "say hello" returns the internal error rather than a reply.
pub proof fn lemma_unreachable_store_is_internal_error(
    o: FetchOutcome,
    r: Result<HelloReply, SayHelloError>,
)
    requires
        o is Failed,
        say_hello_post(o, r),
    ensures
        r matches Err(e) && e is Internal,
{
}

} // verus!
