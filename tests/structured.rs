use taomiko_data::scylla::{
    setup_step, Binding, Kind, QueriesTrait, Query, Scylla, ScyllaCredentials, ScyllaData,
    ScyllaError, SetupAction, SetupStage,
};

#[derive(Debug, PartialEq)]
struct Statement(&'static str);

struct UserQueries {
    create: Statement,
    get: Statement,
}

struct User {
    id: String,
}

impl ScyllaData for User {
    fn id(&self) -> String {
        self.id.clone()
    }
}

impl QueriesTrait for UserQueries {
    type Statement = Statement;

    fn get_query<Data: ScyllaData>(&self, kind: Kind) -> Result<Query<'_, Statement>, ScyllaError> {
        match kind {
            Kind::Create => Ok(Query::Prepared(&self.create)),
            Kind::Get => Ok(Query::Prepared(&self.get)),
            Kind::Delete => Ok(Query::Raw("DELETE FROM taomiko.users WHERE id = ?;")),
            Kind::Update => Ok(Query::Raw("UPDATE taomiko.users SET username = 'x' WHERE id = ?;")),
            Kind::Fetch => Err(ScyllaError::QueryPreparationError(String::from("none"))),
        }
    }
}

fn client() -> Scylla<UserQueries, ()> {
    Scylla {
        queries: UserQueries {
            create: Statement("INSERT"),
            get: Statement("SELECT"),
        },
        session: (),
    }
}

const RAW: Query<'static, Statement> = Query::Raw("SELECT * FROM taomiko.users;");

#[test]
fn credentials_hold_node_and_login() {
    let credentials = ScyllaCredentials { uri: "node1", user: "u", password: "p" };
    assert_eq!((credentials.uri, credentials.user, credentials.password), ("node1", "u", "p"));
}

#[test]
fn setup_runs_its_stages_in_order() {
    assert_eq!(setup_step(SetupStage::OpenSession, Ok(())), SetupAction::Run(SetupStage::EnsureKeyspace));
    assert_eq!(setup_step(SetupStage::EnsureKeyspace, Ok(())), SetupAction::Run(SetupStage::EnsureTables));
    assert_eq!(setup_step(SetupStage::EnsureTables, Ok(())), SetupAction::Run(SetupStage::PrepareQueries));
    assert_eq!(setup_step(SetupStage::PrepareQueries, Ok(())), SetupAction::Ready);
}

#[test]
fn any_setup_failure_aborts_as_a_session_failure() {
    for stage in [
        SetupStage::OpenSession,
        SetupStage::EnsureKeyspace,
        SetupStage::EnsureTables,
        SetupStage::PrepareQueries,
    ] {
        assert_eq!(
            setup_step(stage, Err(String::from("down"))),
            SetupAction::Abort(ScyllaError::CreateSessionError(String::from("down")))
        );
    }
}

#[test]
fn registered_queries_resolve() {
    let scylla = client();
    assert!(matches!(scylla.resolve::<User>(Kind::Create), Ok(Query::Prepared(Statement("INSERT")))));
    assert!(matches!(scylla.resolve::<User>(Kind::Get), Ok(Query::Prepared(Statement("SELECT")))));
    assert!(matches!(
        scylla.resolve::<User>(Kind::Delete),
        Ok(Query::Raw("DELETE FROM taomiko.users WHERE id = ?;"))
    ));
}

#[test]
fn missing_query_is_an_invalid_query() {
    assert!(matches!(client().resolve::<User>(Kind::Fetch), Err(ScyllaError::InvalidQuery)));
    assert!(matches!(
        client().resolved(Err(ScyllaError::GetError(String::from("x")))),
        Err(ScyllaError::InvalidQuery)
    ));
}

#[test]
fn bindings_follow_the_kind() {
    let scylla = client();
    assert_eq!(scylla.binding(Kind::Create), Binding::Record);
    assert_eq!(scylla.binding(Kind::Update), Binding::Identifier);
    assert_eq!(scylla.binding(Kind::Delete), Binding::Identifier);
    assert_eq!(scylla.binding(Kind::Get), Binding::Identifier);
    assert_eq!(scylla.binding(Kind::Fetch), Binding::Parameters);
    let user = User { id: String::from("abc") };
    assert_eq!(user.id(), "abc");
}

#[test]
fn create_failures_depend_on_the_statement_form() {
    let scylla = client();
    let prepared = Statement("INSERT");
    let d = || String::from("timeout");
    assert_eq!(
        scylla.write_outcome(Kind::Create, &Query::Prepared(&prepared), Err(d())),
        Err(ScyllaError::CreateError(d()))
    );
    assert_eq!(scylla.write_outcome(Kind::Create, &RAW, Err(d())), Err(ScyllaError::QueryError(d())));
    assert_eq!(scylla.write_outcome(Kind::Create, &RAW, Ok(())), Ok(()));
}

#[test]
fn update_failures_are_reported_as_delete_failures() {
    let scylla = client();
    let d = || String::from("timeout");
    assert_eq!(scylla.write_outcome(Kind::Update, &RAW, Err(d())), Err(ScyllaError::DeleteError(d())));
    assert_eq!(scylla.write_outcome(Kind::Delete, &RAW, Err(d())), Err(ScyllaError::DeleteError(d())));
    assert_eq!(scylla.execution_error(Kind::Get, &RAW, d()), ScyllaError::GetError(d()));
    assert_eq!(scylla.execution_error(Kind::Fetch, &RAW, d()), ScyllaError::FetchError(d()));
}

#[test]
fn get_takes_the_first_decoded_row() {
    let scylla = client();
    assert_eq!(scylla.get_outcome(&RAW, Ok(Some(Some(5u8)))), Ok(5u8));
    assert_eq!(scylla.get_outcome::<u8>(&RAW, Ok(None)), Err(ScyllaError::RowError));
    assert_eq!(scylla.get_outcome::<u8>(&RAW, Ok(Some(None))), Err(ScyllaError::RowError));
    assert_eq!(
        scylla.get_outcome::<u8>(&RAW, Err(String::from("t"))),
        Err(ScyllaError::GetError(String::from("t")))
    );
}

#[test]
fn get_after_delete_finds_no_row() {
    assert_eq!(client().get_outcome::<u8>(&RAW, Ok(None)), Err(ScyllaError::RowError));
}

#[test]
fn zero_amount_fetches_at_most_ten() {
    let scylla = client();
    assert_eq!(scylla.fetch_amount(0), 10);
    let rows: Vec<Option<u32>> = (0..15).map(Some).collect();
    let fetched = scylla.fetch_outcome(&RAW, Ok(Some(rows)), 0).unwrap();
    assert_eq!(fetched, (0..10).collect::<Vec<u32>>());
}

#[test]
fn amount_bounds_the_fetch() {
    let scylla = client();
    let rows: Vec<Option<u32>> = (0..15).map(Some).collect();
    assert_eq!(scylla.fetch_outcome(&RAW, Ok(Some(rows.clone())), 3), Ok(vec![0, 1, 2]));
    assert_eq!(scylla.fetch_outcome(&RAW, Ok(Some(rows)), 40).unwrap().len(), 15);
    assert_eq!(scylla.fetch_outcome::<u32>(&RAW, Ok(Some(vec![])), 4), Ok(vec![]));
}

#[test]
fn malformed_row_fails_the_whole_fetch() {
    let scylla = client();
    let rows = vec![Some(1u32), Some(2), None, Some(4)];
    assert_eq!(scylla.fetch_outcome(&RAW, Ok(Some(rows.clone())), 0), Err(ScyllaError::RowError));
    assert_eq!(scylla.fetch_outcome(&RAW, Ok(Some(rows)), 2), Ok(vec![1, 2]));
}

#[test]
fn fetch_failures_are_classified() {
    let scylla = client();
    assert_eq!(
        scylla.fetch_outcome::<u32>(&RAW, Err(String::from("t")), 0),
        Err(ScyllaError::FetchError(String::from("t")))
    );
    assert_eq!(scylla.fetch_outcome::<u32>(&RAW, Ok(None), 0), Err(ScyllaError::RowError));
}

#[test]
fn raw_queries_are_told_apart() {
    let prepared = Statement("INSERT");
    assert!(RAW.is_raw());
    assert!(!Query::Prepared(&prepared).is_raw());
}

#[test]
fn structured_messages_name_the_phase_and_detail() {
    let d = || String::from("x");
    let cases = [
        (ScyllaError::CreateSessionError(d()), "[CreateSessionError]: An error has ocurred while creating the session.\nDetail: x"),
        (ScyllaError::QueryPreparationError(d()), "[QueryPreparationError]: An error has ocurred while preparing a query.\nDetail: x"),
        (ScyllaError::QueryError(d()), "[QueryError]: An error has ocurred while making a query.\nDetail: x"),
        (ScyllaError::InvalidQuery, "[InvalidQuery]: An invalid query has been requests for datatype.\nDetail"),
        (ScyllaError::CreateError(d()), "[CreateError]: An error has ocurred while creating data.\nDetail: x"),
        (ScyllaError::DeleteError(d()), "[DeleteError]: An error has ocurred while deleting data.\nDetail: x"),
        (ScyllaError::GetError(d()), "[GetError]: An error has ocurred while getting data.\nDetail: x"),
        (ScyllaError::RowError, "[RowError]: An error has ocurred while processing rows."),
        (ScyllaError::FetchError(d()), "[FetchError]: An error has ocurred while fetching data.\nDetail: x"),
        (ScyllaError::UpdateError(d()), "[UpdateError]: An error has ocurred while updating data.\nDetail: x"),
    ];
    for (error, text) in cases {
        assert_eq!(error.message(), text);
    }
}
