use vstd::prelude::*;
use vstd::string::*;

verus! {

/// Where the structured store can be reached, and who logs in.
pub struct ScyllaCredentials<'a> {
    pub uri: &'a str,
    pub user: &'a str,
    pub password: &'a str,
}

/// Failures of the structured store, tagged by phase: connection, query
/// preparation, execution and row decoding.
#[derive(Debug, PartialEq, Eq)]
pub enum ScyllaError {
    CreateSessionError(String),
    QueryPreparationError(String),
    QueryError(String),
    InvalidQuery,
    CreateError(String),
    DeleteError(String),
    GetError(String),
    RowError,
    FetchError(String),
    UpdateError(String),
}

/// The human-readable headline of each structured-store failure.
pub open spec fn scylla_error_message(e: ScyllaError) -> Seq<char> {
    match e {
        ScyllaError::CreateSessionError(d) =>
            "[CreateSessionError]: An error has ocurred while creating the session.\nDetail: "@ + d@,
        ScyllaError::QueryPreparationError(d) =>
            "[QueryPreparationError]: An error has ocurred while preparing a query.\nDetail: "@ + d@,
        ScyllaError::QueryError(d) =>
            "[QueryError]: An error has ocurred while making a query.\nDetail: "@ + d@,
        ScyllaError::InvalidQuery =>
            "[InvalidQuery]: An invalid query has been requests for datatype.\nDetail"@,
        ScyllaError::CreateError(d) =>
            "[CreateError]: An error has ocurred while creating data.\nDetail: "@ + d@,
        ScyllaError::DeleteError(d) =>
            "[DeleteError]: An error has ocurred while deleting data.\nDetail: "@ + d@,
        ScyllaError::GetError(d) =>
            "[GetError]: An error has ocurred while getting data.\nDetail: "@ + d@,
        ScyllaError::RowError => "[RowError]: An error has ocurred while processing rows."@,
        ScyllaError::FetchError(d) =>
            "[FetchError]: An error has ocurred while fetching data.\nDetail: "@ + d@,
        ScyllaError::UpdateError(d) =>
            "[UpdateError]: An error has ocurred while updating data.\nDetail: "@ + d@,
    }
}

impl ScyllaError {
    /// The message describing this failure, followed by its detail if any.
    pub fn message(&self) -> (r: String)
        ensures
            r@ == scylla_error_message(*self),
    {
        let (head, detail) = match self {
            ScyllaError::CreateSessionError(d) =>
                ("[CreateSessionError]: An error has ocurred while creating the session.\nDetail: ", d.as_str()),
            ScyllaError::QueryPreparationError(d) =>
                ("[QueryPreparationError]: An error has ocurred while preparing a query.\nDetail: ", d.as_str()),
            ScyllaError::QueryError(d) =>
                ("[QueryError]: An error has ocurred while making a query.\nDetail: ", d.as_str()),
            ScyllaError::InvalidQuery =>
                ("[InvalidQuery]: An invalid query has been requests for datatype.\nDetail", ""),
            ScyllaError::CreateError(d) =>
                ("[CreateError]: An error has ocurred while creating data.\nDetail: ", d.as_str()),
            ScyllaError::DeleteError(d) =>
                ("[DeleteError]: An error has ocurred while deleting data.\nDetail: ", d.as_str()),
            ScyllaError::GetError(d) =>
                ("[GetError]: An error has ocurred while getting data.\nDetail: ", d.as_str()),
            ScyllaError::RowError => ("[RowError]: An error has ocurred while processing rows.", ""),
            ScyllaError::FetchError(d) =>
                ("[FetchError]: An error has ocurred while fetching data.\nDetail: ", d.as_str()),
            ScyllaError::UpdateError(d) =>
                ("[UpdateError]: An error has ocurred while updating data.\nDetail: ", d.as_str()),
        };
        proof {
            reveal_strlit("");
        }
        let r = String::from_str(head).concat(detail);
        assert(r@ =~= scylla_error_message(*self));
        r
    }
}

/// The operation a statement is resolved for.
#[derive(Clone, Copy, Debug, PartialEq, Eq, Structural)]
pub enum Kind {
    Create,
    Update,
    Delete,
    Get,
    Fetch,
}

/// A resolved statement: a precompiled one, or raw statement text.
pub enum Query<'a, Statement> {
    Prepared(&'a Statement),
    Raw(&'a str),
}

impl<'a, Statement> Query<'a, Statement> {
    /// Whether the statement is raw text rather than a precompiled one.
    pub fn is_raw(&self) -> (r: bool)
        ensures
            r == (*self is Raw),
    {
        match self {
            Query::Prepared(_) => false,
            Query::Raw(_) => true,
        }
    }
}

/// A record that can be kept in the structured store under its identifier.
pub trait ScyllaData {
    fn id(&self) -> String;
}

/// Picks, per record type and operation, the statement to run.
pub trait QueriesTrait {
    /// The precompiled statement handle of the session in use.
    type Statement;

    fn get_query<Data: ScyllaData>(&self, kind: Kind) -> Result<Query<'_, Self::Statement>, ScyllaError>;
}

/// What a statement is bound to when it runs.
#[derive(Clone, Copy, Debug, PartialEq, Eq, Structural)]
pub enum Binding {
    /// The whole record.
    Record,
    /// The record's identifier alone.
    Identifier,
    /// A parameter set given by the caller.
    Parameters,
}

/// Writes bind the full record; deletes, updates and reads bind only the
/// identifier; fetches bind the caller's parameters.
pub open spec fn binding_of(kind: Kind) -> Binding {
    match kind {
        Kind::Create => Binding::Record,
        Kind::Update | Kind::Delete | Kind::Get => Binding::Identifier,
        Kind::Fetch => Binding::Parameters,
    }
}

/// The failure reported when a statement fails to execute. A create that
/// ran raw text is told apart from one that ran a precompiled statement;
/// an update is reported as a delete failure.
pub open spec fn execution_error_of(kind: Kind, raw: bool, detail: String) -> ScyllaError {
    match kind {
        Kind::Create => if raw {
            ScyllaError::QueryError(detail)
        } else {
            ScyllaError::CreateError(detail)
        },
        Kind::Update | Kind::Delete => ScyllaError::DeleteError(detail),
        Kind::Get => ScyllaError::GetError(detail),
        Kind::Fetch => ScyllaError::FetchError(detail),
    }
}

/// The number of rows a fetch keeps at most: zero stands for ten.
pub open spec fn effective_amount(amount: usize) -> usize {
    if amount == 0 {
        10
    } else {
        amount
    }
}

/// The number of rows a fetch decodes out of `available`.
pub open spec fn fetched_count(available: int, amount: usize) -> int {
    if available < effective_amount(amount) {
        available
    } else {
        effective_amount(amount) as int
    }
}

/// Whether the first `n` rows all decoded.
pub open spec fn all_decoded<Data>(rows: Seq<Option<Data>>, n: int) -> bool {
    forall|i: int| 0 <= i < n ==> (#[trigger] rows[i]) is Some
}

/// The stages of bringing a structured-store client up, in order.
#[derive(Clone, Copy, Debug, PartialEq, Eq, Structural)]
pub enum SetupStage {
    OpenSession,
    EnsureKeyspace,
    EnsureTables,
    PrepareQueries,
}

/// What to do once a setup stage has replied.
#[derive(Debug, PartialEq, Eq)]
pub enum SetupAction {
    /// Run this stage next.
    Run(SetupStage),
    /// Every stage succeeded: the client is ready.
    Ready,
    /// Construction is abandoned with this failure.
    Abort(ScyllaError),
}

/// Setup runs the session, keyspace, tables and statements in that order;
/// any failure aborts it as a session-creation failure.
pub open spec fn setup_action_of(stage: SetupStage, reply: Result<(), String>) -> SetupAction {
    match reply {
        Err(d) => SetupAction::Abort(ScyllaError::CreateSessionError(d)),
        Ok(()) => match stage {
            SetupStage::OpenSession => SetupAction::Run(SetupStage::EnsureKeyspace),
            SetupStage::EnsureKeyspace => SetupAction::Run(SetupStage::EnsureTables),
            SetupStage::EnsureTables => SetupAction::Run(SetupStage::PrepareQueries),
            SetupStage::PrepareQueries => SetupAction::Ready,
        },
    }
}

/// The step of setup that follows the reply of `stage`.
pub fn setup_step(stage: SetupStage, reply: Result<(), String>) -> (r: SetupAction)
    ensures
        r == setup_action_of(stage, reply),
{
    match reply {
        Err(d) => SetupAction::Abort(ScyllaError::CreateSessionError(d)),
        Ok(()) => match stage {
            SetupStage::OpenSession => SetupAction::Run(SetupStage::EnsureKeyspace),
            SetupStage::EnsureKeyspace => SetupAction::Run(SetupStage::EnsureTables),
            SetupStage::EnsureTables => SetupAction::Run(SetupStage::PrepareQueries),
            SetupStage::PrepareQueries => SetupAction::Ready,
        },
    }
}

/// The structured-store client: a session and the resolver that was
/// prepared on it. The network work is done by the caller; this type
/// resolves statements and classifies what comes back.
pub struct Scylla<Queries, Session> {
    pub queries: Queries,
    pub session: Session,
}

impl<Queries: QueriesTrait, Session> Scylla<Queries, Session> {
    /// The statement for `kind` and the record type, or `InvalidQuery` if the
    /// resolver has none.
    pub fn resolve<Data: ScyllaData>(&self, kind: Kind) -> (r: Result<
        Query<'_, Queries::Statement>,
        ScyllaError,
    >)
        ensures
            r is Err ==> r == Err::<Query<'_, Queries::Statement>, ScyllaError>(
                ScyllaError::InvalidQuery,
            ),
    {
        let found = self.queries.get_query::<Data>(kind);
        self.resolved(found)
    }

    /// Turns what the resolver found into the statement to run: any failure
    /// to resolve is a configuration fault, reported as `InvalidQuery`.
    pub fn resolved<'a>(&self, found: Result<Query<'a, Queries::Statement>, ScyllaError>) -> (r:
        Result<Query<'a, Queries::Statement>, ScyllaError>)
        ensures
            match found {
                Ok(q) => r == Ok::<Query<'a, Queries::Statement>, ScyllaError>(q),
                Err(_) => r == Err::<Query<'a, Queries::Statement>, ScyllaError>(
                    ScyllaError::InvalidQuery,
                ),
            },
    {
        match found {
            Ok(q) => Ok(q),
            Err(_) => Err(ScyllaError::InvalidQuery),
        }
    }

    /// What the statement for `kind` is bound to.
    pub fn binding(&self, kind: Kind) -> (r: Binding)
        ensures
            r == binding_of(kind),
    {
        match kind {
            Kind::Create => Binding::Record,
            Kind::Update | Kind::Delete | Kind::Get => Binding::Identifier,
            Kind::Fetch => Binding::Parameters,
        }
    }

    /// The failure reported when the statement for `kind` fails to execute.
    pub fn execution_error(
        &self,
        kind: Kind,
        query: &Query<'_, Queries::Statement>,
        detail: String,
    ) -> (r: ScyllaError)
        ensures
            r == execution_error_of(kind, *query is Raw, detail),
    {
        match kind {
            Kind::Create => if query.is_raw() {
                ScyllaError::QueryError(detail)
            } else {
                ScyllaError::CreateError(detail)
            },
            Kind::Update | Kind::Delete => ScyllaError::DeleteError(detail),
            Kind::Get => ScyllaError::GetError(detail),
            Kind::Fetch => ScyllaError::FetchError(detail),
        }
    }

    /// Classifies the reply to a create, update or delete statement.
    pub fn write_outcome(
        &self,
        kind: Kind,
        query: &Query<'_, Queries::Statement>,
        reply: Result<(), String>,
    ) -> (r: Result<(), ScyllaError>)
        ensures
            match reply {
                Ok(()) => r == Ok::<(), ScyllaError>(()),
                Err(d) => r == Err::<(), ScyllaError>(execution_error_of(kind, *query is Raw, d)),
            },
    {
        match reply {
            Ok(()) => Ok(()),
            Err(d) => Err(self.execution_error(kind, query, d)),
        }
    }

    /// Classifies the reply to a read by identifier: the statement's failure,
    /// or else its first row (absent when no row came back), decoded (absent
    /// when decoding failed).
    pub fn get_outcome<Data>(
        &self,
        query: &Query<'_, Queries::Statement>,
        reply: Result<Option<Option<Data>>, String>,
    ) -> (r: Result<Data, ScyllaError>)
        ensures
            match reply {
                Err(d) => r == Err::<Data, ScyllaError>(ScyllaError::GetError(d)),
                Ok(Some(Some(v))) => r == Ok::<Data, ScyllaError>(v),
                Ok(_) => r == Err::<Data, ScyllaError>(ScyllaError::RowError),
            },
    {
        match reply {
            Err(d) => Err(self.execution_error(Kind::Get, query, d)),
            Ok(Some(Some(v))) => Ok(v),
            Ok(_) => Err(ScyllaError::RowError),
        }
    }

    /// The number of rows a fetch keeps at most.
    pub fn fetch_amount(&self, amount: usize) -> (r: usize)
        ensures
            r == effective_amount(amount),
            r > 0,
            amount > 0 ==> r == amount,
    {
        if amount == 0 {
            10
        } else {
            amount
        }
    }

    /// Classifies the reply to a fetch: the statement's failure, or else its
    /// rows (absent when the reply held none), each decoded (absent when
    /// decoding failed). The first `amount` rows are kept, all of them
    /// decoded, or the fetch fails as a whole.
    pub fn fetch_outcome<Data>(
        &self,
        query: &Query<'_, Queries::Statement>,
        reply: Result<Option<Vec<Option<Data>>>, String>,
        amount: usize,
    ) -> (r: Result<Vec<Data>, ScyllaError>)
        ensures
            match reply {
                Err(d) => r == Err::<Vec<Data>, ScyllaError>(ScyllaError::FetchError(d)),
                Ok(None) => r == Err::<Vec<Data>, ScyllaError>(ScyllaError::RowError),
                Ok(Some(rows)) => {
                    let n = fetched_count(rows@.len() as int, amount);
                    &&& (r is Ok <==> all_decoded(rows@, n))
                    &&& (r is Err ==> r == Err::<Vec<Data>, ScyllaError>(ScyllaError::RowError))
                    &&& (r matches Ok(out) ==> {
                        &&& out@.len() == n
                        &&& forall|i: int| 0 <= i < n ==> rows@[i] == Some(#[trigger] out@[i])
                    })
                },
            },
    {
        match reply {
            Err(d) => Err(self.execution_error(Kind::Fetch, query, d)),
            Ok(None) => Err(ScyllaError::RowError),
            Ok(Some(rows)) => self.collect_rows(rows, amount),
        }
    }

    /// Keeps the first `amount` rows if all of them decoded.
    #[verifier::loop_isolation(false)]
    fn collect_rows<Data>(&self, rows: Vec<Option<Data>>, amount: usize) -> (r: Result<
        Vec<Data>,
        ScyllaError,
    >)
        ensures
            ({
                let n = fetched_count(rows@.len() as int, amount);
                &&& (r is Ok <==> all_decoded(rows@, n))
                &&& (r is Err ==> r == Err::<Vec<Data>, ScyllaError>(ScyllaError::RowError))
                &&& (r matches Ok(out) ==> {
                    &&& out@.len() == n
                    &&& forall|i: int| 0 <= i < n ==> rows@[i] == Some(#[trigger] out@[i])
                })
            }),
    {
        let ghost original = rows@;
        let limit = self.fetch_amount(amount);
        let mut pending = rows;
        pending.truncate(limit);
        let ghost kept = pending@;
        let ghost n = fetched_count(original.len() as int, amount);
        assert(kept.len() == n);
        assert(forall|i: int| 0 <= i < n ==> kept[i] == original[i]);
        let mut reversed: Vec<Data> = Vec::new();
        while pending.len() > 0
            invariant
                kept.len() == n,
                n <= original.len(),
                forall|j: int| 0 <= j < n ==> kept[j] == original[j],
                pending@ == kept.subrange(0, pending@.len() as int),
                reversed@.len() + pending@.len() == n,
                forall|j: int| 0 <= j < reversed@.len() ==> kept[n - 1 - j] == Some(#[trigger] reversed@[j]),
            decreases pending.len(),
        {
            let ghost last = pending@.len() - 1;
            match pending.pop() {
                Some(Some(v)) => reversed.push(v),
                _ => {
                    assert(original[last] is None);
                    assert(!all_decoded(original, n));
                    return Err(ScyllaError::RowError);
                },
            }
        }
        assert(all_decoded(original, n)) by {
            assert forall|i: int| 0 <= i < n implies (#[trigger] original[i]) is Some by {
                assert(kept[n - 1 - (n - 1 - i)] == Some(reversed@[n - 1 - i]));
            }
        }
        let mut out: Vec<Data> = Vec::new();
        while reversed.len() > 0
            invariant
                kept.len() == n,
                n <= original.len(),
                forall|j: int| 0 <= j < n ==> kept[j] == original[j],
                out@.len() + reversed@.len() == n,
                forall|j: int| 0 <= j < reversed@.len() ==> kept[n - 1 - j] == Some(#[trigger] reversed@[j]),
                forall|j: int| 0 <= j < out@.len() ==> kept[j] == Some(#[trigger] out@[j]),
            decreases reversed.len(),
        {
            let ghost r = reversed@.len() - 1;
            assert(kept[n - 1 - r] == Some(reversed@[r]));
            match reversed.pop() {
                Some(v) => out.push(v),
                None => {},
            }
        }
        Ok(out)
    }
}

/// A fetch never keeps more rows than asked for, and at most ten when zero
/// is asked for; a row among those kept that fails to decode fails the
/// fetch as a whole.
pub proof fn lemma_fetch_is_bounded_and_all_or_nothing<Data>(
    rows: Seq<Option<Data>>,
    amount: usize,
    bad: int,
)
    ensures
        fetched_count(rows.len() as int, amount) <= effective_amount(amount),
        amount == 0 ==> fetched_count(rows.len() as int, amount) <= 10,
        amount > 0 ==> fetched_count(rows.len() as int, amount) <= amount,
        0 <= bad < fetched_count(rows.len() as int, amount) && rows[bad] is None ==> !all_decoded(
            rows,
            fetched_count(rows.len() as int, amount),
        ),
{
}

} // verus!
