use crate::redis::{RedisCredentials, RedisError, redis_error_message};
use crate::scylla::{ScyllaCredentials, ScyllaError, scylla_error_message};
use std::rc::Rc;
use vstd::prelude::*;

verus! {

/// A failure of either store, carried unchanged.
#[derive(Debug, PartialEq, Eq)]
pub enum HandlerError {
    RedisError(RedisError),
    ScyllaError(ScyllaError),
}

impl HandlerError {
    /// The message of the store failure carried.
    pub fn message(&self) -> (r: String)
        ensures
            r@ == match *self {
                HandlerError::RedisError(e) => redis_error_message(e),
                HandlerError::ScyllaError(e) => scylla_error_message(e),
            },
    {
        match self {
            HandlerError::RedisError(e) => e.message(),
            HandlerError::ScyllaError(e) => e.message(),
        }
    }
}

impl From<RedisError> for HandlerError {
    fn from(error: RedisError) -> (r: HandlerError)
        ensures
            r == HandlerError::RedisError(error),
    {
        HandlerError::RedisError(error)
    }
}

impl vstd::std_specs::convert::FromSpecImpl<RedisError> for HandlerError {
    open spec fn obeys_from_spec() -> bool {
        true
    }

    open spec fn from_spec(v: RedisError) -> HandlerError {
        HandlerError::RedisError(v)
    }
}

impl From<ScyllaError> for HandlerError {
    fn from(error: ScyllaError) -> (r: HandlerError)
        ensures
            r == HandlerError::ScyllaError(error),
    {
        HandlerError::ScyllaError(error)
    }
}

impl vstd::std_specs::convert::FromSpecImpl<ScyllaError> for HandlerError {
    open spec fn obeys_from_spec() -> bool {
        true
    }

    open spec fn from_spec(v: ScyllaError) -> HandlerError {
        HandlerError::ScyllaError(v)
    }
}

/// The credentials of both stores, given once at startup.
pub struct HandlerConfiguration<'a, 'b> {
    pub redis_credentials: &'a RedisCredentials<'b>,
    pub scylla_credentials: &'a ScyllaCredentials<'b>,
}

impl<'a, 'b> HandlerConfiguration<'a, 'b> {
    pub fn new(
        redis_credentials: &'a RedisCredentials<'b>,
        scylla_credentials: &'a ScyllaCredentials<'b>,
    ) -> (r: Self)
        ensures
            r.redis_credentials == redis_credentials,
            r.scylla_credentials == scylla_credentials,
    {
        HandlerConfiguration { redis_credentials, scylla_credentials }
    }
}

/// One volatile-store client, owned, and one structured-store client,
/// shared. The network work is done by the caller; this type decides the
/// order of writes and the result of a raced read.
pub struct Handler<Volatile, Structured> {
    pub redis: Volatile,
    pub scylla: Rc<Structured>,
}

/// The two stores a handler writes to.
#[derive(Clone, Copy, Debug, PartialEq, Eq, Structural)]
pub enum Store {
    Structured,
    Volatile,
}

/// What has happened so far in a two-store operation.
pub enum StepEvent {
    /// Nothing has run yet.
    Start,
    /// The structured store has answered.
    StructuredDone(Result<(), ScyllaError>),
    /// The volatile store has answered.
    VolatileDone(Result<(), RedisError>),
}

/// What to do next in a two-store operation.
#[derive(Debug, PartialEq, Eq)]
pub enum StepAction {
    /// Run the operation against this store.
    Run(Store),
    /// The operation is over, with this result.
    Finish(Result<(), HandlerError>),
}

/// Connecting, creating, updating and deleting all run the structured store
/// first and the volatile store second, one after the other; a structured
/// failure ends the operation before the volatile store is touched, and
/// nothing is undone when the volatile store fails.
pub open spec fn next_step_of(event: StepEvent) -> StepAction {
    match event {
        StepEvent::Start => StepAction::Run(Store::Structured),
        StepEvent::StructuredDone(Ok(())) => StepAction::Run(Store::Volatile),
        StepEvent::StructuredDone(Err(e)) => StepAction::Finish(Err(HandlerError::ScyllaError(e))),
        StepEvent::VolatileDone(Ok(())) => StepAction::Finish(Ok(())),
        StepEvent::VolatileDone(Err(e)) => StepAction::Finish(Err(HandlerError::RedisError(e))),
    }
}

/// The result of a two-store operation whose structured step answered
/// `structured` and whose volatile step, if it ran, answered `volatile`.
pub open spec fn two_store_result(
    structured: Result<(), ScyllaError>,
    volatile: Result<(), RedisError>,
) -> Result<(), HandlerError> {
    match structured {
        Err(e) => Err(HandlerError::ScyllaError(e)),
        Ok(()) => match volatile {
            Err(e) => Err(HandlerError::RedisError(e)),
            Ok(()) => Ok(()),
        },
    }
}

/// The step that follows `event` in a two-store operation.
pub fn next_step(event: StepEvent) -> (r: StepAction)
    ensures
        r == next_step_of(event),
{
    match event {
        StepEvent::Start => StepAction::Run(Store::Structured),
        StepEvent::StructuredDone(Ok(())) => StepAction::Run(Store::Volatile),
        StepEvent::StructuredDone(Err(e)) => StepAction::Finish(Err(HandlerError::from(e))),
        StepEvent::VolatileDone(Ok(())) => StepAction::Finish(Ok(())),
        StepEvent::VolatileDone(Err(e)) => StepAction::Finish(Err(HandlerError::from(e))),
    }
}

/// The first of the two raced reads to conclude, with what it concluded.
pub enum GetOutcome<Data> {
    Structured(Result<Data, ScyllaError>),
    Volatile(Result<Data, RedisError>),
}

/// A raced read returns what the first read to conclude returned, a
/// failure included.
pub open spec fn settled_of<Data>(first: GetOutcome<Data>) -> Result<Data, HandlerError> {
    match first {
        GetOutcome::Structured(Ok(v)) => Ok(v),
        GetOutcome::Structured(Err(e)) => Err(HandlerError::ScyllaError(e)),
        GetOutcome::Volatile(Ok(v)) => Ok(v),
        GetOutcome::Volatile(Err(e)) => Err(HandlerError::RedisError(e)),
    }
}

impl<Volatile, Structured> Handler<Volatile, Structured> {
    /// A handler over both clients; the structured one becomes shared.
    pub fn new(redis: Volatile, scylla: Structured) -> (r: Self)
        ensures
            r.redis == redis,
            *r.scylla == scylla,
    {
        Handler { redis, scylla: Rc::new(scylla) }
    }

    /// The result of a raced read, from the read that concluded first.
    pub fn settle_get<Data>(&self, first: GetOutcome<Data>) -> (r: Result<Data, HandlerError>)
        ensures
            r == settled_of(first),
    {
        match first {
            GetOutcome::Structured(Ok(v)) => Ok(v),
            GetOutcome::Structured(Err(e)) => Err(HandlerError::from(e)),
            GetOutcome::Volatile(Ok(v)) => Ok(v),
            GetOutcome::Volatile(Err(e)) => Err(HandlerError::from(e)),
        }
    }

    /// A multi-row read goes to the structured store alone; its failure is
    /// carried unchanged.
    pub fn fetch_result<Data>(&self, fetched: Result<Vec<Data>, ScyllaError>) -> (r: Result<
        Vec<Data>,
        HandlerError,
    >)
        ensures
            match fetched {
                Ok(rows) => r == Ok::<Vec<Data>, HandlerError>(rows),
                Err(e) => r == Err::<Vec<Data>, HandlerError>(HandlerError::ScyllaError(e)),
            },
    {
        match fetched {
            Ok(rows) => Ok(rows),
            Err(e) => Err(HandlerError::from(e)),
        }
    }
}

/// Every two-store operation starts with the structured store; the volatile
/// store runs only after the structured store succeeded; a structured
/// failure ends it with that failure; and a run of the steps gives the
/// result that the two answers determine.
pub proof fn lemma_writes_are_ordered(
    event: StepEvent,
    structured: Result<(), ScyllaError>,
    volatile: Result<(), RedisError>,
)
    ensures
        next_step_of(StepEvent::Start) == StepAction::Run(Store::Structured),
        next_step_of(event) == StepAction::Run(Store::Volatile) <==> event == StepEvent::StructuredDone(
            Ok(()),
        ),
        structured is Err ==> next_step_of(StepEvent::StructuredDone(structured))
            == StepAction::Finish(two_store_result(structured, volatile)),
        structured is Ok ==> next_step_of(StepEvent::VolatileDone(volatile)) == StepAction::Finish(
            two_store_result(structured, volatile),
        ),
{
    if let StepEvent::StructuredDone(Ok(u)) = event {
        assert(u == ());
        assert(event == StepEvent::StructuredDone(Ok(())));
    }
}

/// Whichever read concludes first decides a raced read, whatever the other
/// would have answered: a fast failure wins over a slow success.
pub proof fn lemma_get_takes_first<Data>(first: GetOutcome<Data>, second: GetOutcome<Data>)
    ensures
        settled_of(first) is Ok <==> (first matches GetOutcome::Structured(Ok(_)) || first matches GetOutcome::Volatile(Ok(_))),
        first matches GetOutcome::Structured(Err(e)) ==> settled_of(first) == Err::<Data, HandlerError>(
            HandlerError::ScyllaError(e),
        ),
        first matches GetOutcome::Volatile(Err(e)) ==> settled_of(first) == Err::<Data, HandlerError>(
            HandlerError::RedisError(e),
        ),
        first matches GetOutcome::Structured(Ok(v)) ==> settled_of(first) == Ok::<Data, HandlerError>(v),
        first matches GetOutcome::Volatile(Ok(v)) ==> settled_of(first) == Ok::<Data, HandlerError>(v),
{
}

} // verus!
