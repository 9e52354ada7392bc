use either::Either;
use sync_executor::database::{Database, Summary};
use sync_executor::engine::NativeEngine;
use sync_executor::item::Item;
use sync_executor::query::{query_with, query_with_result, Query};
use sync_executor::scripted::{Reply, RequestKind, ScriptedEngine, ScriptedOptions};
use sync_executor::sqlite::SqliteQueryResult;
use sync_executor::stream::SyncStream;
use sync_executor::{Error, SyncExecutor, SyncSqliteConnection};

struct Texts;

impl Database for Texts {
    type QueryResult = SqliteQueryResult;
    type Row = String;
    type Arguments = Vec<String>;
    type TypeInfo = String;
    type Metadata = usize;
    type Describe = Vec<String>;
}

type Step = Item<SqliteQueryResult, String>;

type Connection = SyncSqliteConnection<ScriptedEngine<Texts>>;

fn row(text: &str) -> Step {
    Ok(Either::Right(text.to_string()))
}

fn done(changes: u64, last_insert_rowid: i64) -> Step {
    Ok(Either::Left(SqliteQueryResult { changes, last_insert_rowid }))
}

fn failure(message: &str) -> Step {
    Err(Error::Database(message.to_string()))
}

fn connect(replies: Vec<Reply<Texts>>) -> Connection {
    let mut engine = ScriptedEngine::new();
    for reply in replies {
        engine.reply(reply);
    }
    match SyncSqliteConnection::established(Ok(engine)) {
        Ok(connection) => connection,
        Err(error) => panic!("no connection: {:?}", error),
    }
}

fn unbound(sql: &str) -> Query<'_, Texts> {
    query_with_result(sql, Err("cannot bind".to_string()))
}

fn drain<S: SyncStream>(mut stream: S) -> Vec<S::Item> {
    let mut items = Vec::new();
    while let Some(item) = stream.next() {
        items.push(item);
    }
    items
}

#[test]
fn a_query_without_rows_finds_none() {
    let mut conn = connect(vec![
        Reply::Stream(vec![]),
        Reply::Stream(vec![]),
        Reply::Stream(vec![done(1, 4), done(0, 4)]),
        Reply::Stream(vec![done(1, 4), done(0, 4)]),
    ]);
    assert_eq!(conn.fetch_optional("SELECT 1 WHERE 0"), Ok(None));
    assert_eq!(conn.fetch_one("SELECT 1 WHERE 0"), Err(Error::RowNotFound));
    assert_eq!(conn.fetch_optional("DELETE FROM t; DELETE FROM u"), Ok(None));
    assert_eq!(conn.fetch_one("DELETE FROM t; DELETE FROM u"), Err(Error::RowNotFound));
}

#[test]
fn a_query_with_rows_gives_the_first() {
    let script = || Reply::Stream(vec![done(2, 0), row("a"), row("b"), done(0, 0), row("c")]);
    let mut conn = connect(vec![script(), script(), Reply::Stream(vec![row("only")])]);
    assert_eq!(conn.fetch_optional("SELECT x FROM t"), Ok(Some("a".to_string())));
    assert_eq!(conn.fetch_one("SELECT x FROM t"), Ok("a".to_string()));
    assert_eq!(conn.fetch_one("SELECT 'only'"), Ok("only".to_string()));
}

#[test]
fn looking_for_one_row_stops_at_the_row() {
    let mut conn = connect(vec![Reply::Stream(vec![row("a"), failure("late"), row("b")])]);
    assert_eq!(conn.fetch_one("SELECT x FROM t"), Ok("a".to_string()));
    // the engine was not asked for more than the first row
    assert_eq!(conn.engine_mut().step(), Some(failure("late")));
    assert_eq!(conn.engine_mut().step(), Some(row("b")));
    assert_eq!(conn.engine_mut().step(), None);
}

#[test]
fn a_failure_before_the_first_row_fails_the_search() {
    let script = || Reply::Stream(vec![done(1, 1), failure("early"), row("a")]);
    let mut conn = connect(vec![script(), script()]);
    assert_eq!(conn.fetch_optional("SELECT x FROM t"), Err(Error::Database("early".to_string())));
    assert_eq!(conn.fetch_one("SELECT x FROM t"), Err(Error::Database("early".to_string())));
}

#[test]
fn fetch_all_returns_every_row_in_engine_order() {
    let mut conn = connect(vec![
        Reply::Stream(vec![row("15"), row("51"), row("39")]),
        Reply::Stream(vec![done(0, 0), row("x"), done(0, 0), row("y"), done(3, 3)]),
        Reply::Stream(vec![]),
    ]);
    assert_eq!(
        conn.fetch_all("SELECT 15 UNION ALL SELECT 51 UNION ALL SELECT 39"),
        Ok(vec!["15".to_string(), "51".to_string(), "39".to_string()])
    );
    assert_eq!(conn.fetch_all("a; b"), Ok(vec!["x".to_string(), "y".to_string()]));
    assert_eq!(conn.fetch_all("SELECT 1 WHERE 0"), Ok(vec![]));
}

#[test]
fn fetch_yields_rows_as_the_engine_emits_them() {
    let mut conn = connect(vec![Reply::Stream(vec![row("15"), done(0, 0), row("51"), row("39")])]);
    let rows = drain(conn.fetch("SELECT 15 UNION ALL SELECT 51 UNION ALL SELECT 39"));
    assert_eq!(rows, vec![Ok("15".to_string()), Ok("51".to_string()), Ok("39".to_string())]);
}

#[test]
fn execute_many_yields_one_summary_for_each_statement() {
    let script = || Reply::Stream(vec![done(1, 10), done(2, 11), done(0, 11)]);
    let mut conn = connect(vec![script(), script(), script()]);
    let summaries = drain(conn.execute_many("a; b; c"));
    assert_eq!(
        summaries,
        vec![
            Ok(SqliteQueryResult { changes: 1, last_insert_rowid: 10 }),
            Ok(SqliteQueryResult { changes: 2, last_insert_rowid: 11 }),
            Ok(SqliteQueryResult { changes: 0, last_insert_rowid: 11 }),
        ]
    );
    assert_eq!(drain(conn.fetch("a; b; c")), vec![]);
    assert_eq!(conn.fetch_all("a; b; c"), Ok(vec![]));
}

#[test]
fn execute_many_drops_the_rows() {
    let mut conn = connect(vec![Reply::Stream(vec![row("a"), done(1, 1), row("b"), done(2, 2)])]);
    let summaries = drain(conn.execute_many("a; b"));
    assert_eq!(
        summaries,
        vec![
            Ok(SqliteQueryResult { changes: 1, last_insert_rowid: 1 }),
            Ok(SqliteQueryResult { changes: 2, last_insert_rowid: 2 }),
        ]
    );
}

#[test]
fn fetch_many_yields_everything_in_order() {
    let mut conn = connect(vec![Reply::Stream(vec![row("a"), done(1, 1), failure("x"), row("b")])]);
    let items = drain(conn.fetch_many("a; b"));
    assert_eq!(items, vec![row("a"), done(1, 1), failure("x"), row("b")]);
}

#[test]
fn execute_is_the_merge_of_execute_many() {
    let script = || Reply::Stream(vec![done(1, 10), row("r"), done(2, 11), done(4, 0)]);
    let mut conn = connect(vec![script(), script()]);
    let mut expected = SqliteQueryResult { changes: 0, last_insert_rowid: 0 };
    for summary in drain(conn.execute_many("a; b; c")) {
        let summary = summary.unwrap();
        expected = SqliteQueryResult {
            changes: expected.changes + summary.changes,
            last_insert_rowid: summary.last_insert_rowid,
        };
    }
    assert_eq!(expected, SqliteQueryResult { changes: 7, last_insert_rowid: 0 });
    assert_eq!(conn.execute("a; b; c"), Ok(expected));
}

#[test]
fn the_summary_of_a_script_is_the_merge_of_its_parts() {
    let mut conn = connect(vec![
        Reply::Stream(vec![done(1, 10), done(2, 11), done(4, 12)]),
        Reply::Stream(vec![done(1, 10)]),
    ]);
    let whole = conn.execute("a; b; c").unwrap();
    let mut parts = conn.execute("a").unwrap();
    let mut rest = SqliteQueryResult { changes: 2, last_insert_rowid: 11 };
    rest.merge(SqliteQueryResult { changes: 4, last_insert_rowid: 12 });
    parts.merge(rest);
    assert_eq!(whole, parts);
    assert_eq!(whole, SqliteQueryResult { changes: 7, last_insert_rowid: 12 });
}

#[test]
fn execute_of_no_statement_is_the_empty_summary() {
    let mut conn = connect(vec![Reply::Stream(vec![]), Reply::Stream(vec![row("a"), row("b")])]);
    assert_eq!(conn.execute(""), Ok(SqliteQueryResult { changes: 0, last_insert_rowid: 0 }));
    assert_eq!(
        conn.execute("SELECT x FROM t"),
        Ok(SqliteQueryResult { changes: 0, last_insert_rowid: 0 })
    );
}

#[test]
fn fetch_all_twice_gives_the_same_rows() {
    let script = || Reply::Stream(vec![row("a"), row("b"), done(0, 0)]);
    let mut conn = connect(vec![script(), script()]);
    let first = conn.fetch_all("SELECT x FROM t");
    let second = conn.fetch_all("SELECT x FROM t");
    assert_eq!(first, Ok(vec!["a".to_string(), "b".to_string()]));
    assert_eq!(first, second);
}

#[test]
fn a_failed_binding_never_reaches_the_engine() {
    let mut conn = connect(vec![Reply::Stream(vec![row("a")])]);
    let refused = || Error::Encode("cannot bind".to_string());

    assert_eq!(drain(conn.fetch_many(unbound("SELECT ?"))), vec![Err(refused())]);
    assert_eq!(drain(conn.fetch(unbound("SELECT ?"))), vec![Err(refused())]);
    assert_eq!(drain(conn.execute_many(unbound("SELECT ?"))), vec![Err(refused())]);
    assert_eq!(conn.execute(unbound("SELECT ?")), Err(refused()));
    assert_eq!(conn.fetch_all(unbound("SELECT ?")), Err(refused()));
    assert_eq!(conn.fetch_one(unbound("SELECT ?")), Err(refused()));
    assert_eq!(conn.fetch_optional(unbound("SELECT ?")), Err(refused()));
    assert_eq!(conn.engine().requests().len(), 0);

    // the reply is still there for a query that can be bound
    assert_eq!(conn.fetch_one("SELECT 'a'"), Ok("a".to_string()));
    assert_eq!(conn.engine().requests().len(), 1);
}

#[test]
fn a_failure_in_the_stream_fails_the_eager_operations() {
    let script = || Reply::Stream(vec![done(1, 1), row("a"), failure("broken"), row("b"), done(2, 2)]);
    let mut conn = connect(vec![script(), script(), script(), script()]);
    let broken = || Error::Database("broken".to_string());
    assert_eq!(conn.fetch_all("a; b"), Err(broken()));
    assert_eq!(conn.execute("a; b"), Err(broken()));
    // the lazy operations keep the failure in its place and go on
    assert_eq!(
        drain(conn.fetch("a; b")),
        vec![Ok("a".to_string()), Err(broken()), Ok("b".to_string())]
    );
    assert_eq!(
        drain(conn.execute_many("a; b")),
        vec![
            Ok(SqliteQueryResult { changes: 1, last_insert_rowid: 1 }),
            Err(broken()),
            Ok(SqliteQueryResult { changes: 2, last_insert_rowid: 2 }),
        ]
    );
}

#[test]
fn a_query_that_cannot_start_is_a_single_failure() {
    let refused = || Error::Database("syntax error".to_string());
    let mut conn = connect(vec![
        Reply::Failure(refused()),
        Reply::Failure(refused()),
        Reply::Failure(refused()),
        Reply::Failure(refused()),
    ]);
    assert_eq!(drain(conn.fetch_many("SELEC 1")), vec![Err(refused())]);
    assert_eq!(conn.fetch_optional("SELEC 1"), Err(refused()));
    assert_eq!(conn.fetch_all("SELEC 1"), Err(refused()));
    assert_eq!(conn.execute("SELEC 1"), Err(refused()));
    assert_eq!(conn.engine().requests().len(), 4);
}

#[test]
fn an_engine_without_a_reply_is_gone() {
    let mut conn = connect(vec![Reply::Prepared(3)]);
    // a reply of another kind
    assert_eq!(conn.fetch_all("SELECT 1"), Err(Error::WorkerCrashed));
    // no reply at all
    assert_eq!(conn.fetch_all("SELECT 1"), Err(Error::WorkerCrashed));
    assert_eq!(conn.describe("SELECT 1"), Err(Error::WorkerCrashed));
    assert_eq!(conn.prepare("SELECT 1").err(), Some(Error::WorkerCrashed));
}

#[test]
fn persistence_needs_arguments() {
    let script = || Reply::Stream(vec![row("a")]);
    let mut conn = connect(vec![script(), script(), script(), script()]);

    // plain text carries no arguments
    conn.fetch_one("SELECT 1").unwrap();
    // arguments and the hint
    conn.fetch_one(query_with::<Texts>("SELECT ?", vec!["x".to_string()])).unwrap();
    // arguments, but the hint withdrawn
    conn.fetch_all(query_with::<Texts>("SELECT ?", vec![]).persistent(false)).unwrap();
    // through the stream as well
    drain(conn.fetch_many(query_with::<Texts>("SELECT ?", vec![])));

    let requests = conn.engine().requests();
    assert_eq!(requests.len(), 4);
    assert_eq!((requests[0].bound, requests[0].persistent), (false, false));
    assert_eq!((requests[1].bound, requests[1].persistent), (true, true));
    assert_eq!((requests[2].bound, requests[2].persistent), (true, false));
    assert_eq!((requests[3].bound, requests[3].persistent), (true, true));
    for request in requests {
        assert_eq!(request.kind, RequestKind::Execute);
    }
    assert_eq!(requests[0].sql, "SELECT 1");
    assert_eq!(requests[1].sql, "SELECT ?");
}

#[test]
fn prepare_tags_the_statement_with_the_text() {
    let mut conn = connect(vec![
        Reply::Prepared(2),
        Reply::Prepared(5),
        Reply::Failure(Error::Database("no such table".to_string())),
    ]);
    let statement = conn.prepare("SELECT ?, ?").unwrap();
    assert_eq!(statement.sql(), "SELECT ?, ?");
    assert_eq!(statement.metadata, 2);

    let hints = vec!["text".to_string()];
    let statement = conn.prepare_with("SELECT ?", &hints).unwrap();
    assert_eq!(statement.sql(), "SELECT ?");
    assert_eq!(statement.metadata, 5);

    let failed = conn.prepare("SELECT x FROM missing");
    assert_eq!(failed.err(), Some(Error::Database("no such table".to_string())));

    let requests = conn.engine().requests();
    assert_eq!(requests.len(), 3);
    for request in requests {
        assert_eq!(request.kind, RequestKind::Prepare);
    }
    assert_eq!(requests[2].sql, "SELECT x FROM missing");
}

#[test]
fn describe_hands_on_what_the_engine_says() {
    let mut conn = connect(vec![
        Reply::Described(vec!["id".to_string(), "name".to_string()]),
        Reply::Failure(Error::Database("no such table".to_string())),
    ]);
    assert_eq!(
        conn.describe("SELECT id, name FROM t"),
        Ok(vec!["id".to_string(), "name".to_string()])
    );
    assert_eq!(
        conn.describe("SELECT x FROM missing"),
        Err(Error::Database("no such table".to_string()))
    );
    assert_eq!(conn.engine().requests()[0].kind, RequestKind::Describe);
    assert_eq!(conn.engine().requests()[0].sql, "SELECT id, name FROM t");
}

#[test]
fn establish_opens_a_connection_where_the_engine_can_be_reached() {
    let opened = Connection::establish(&ScriptedOptions { reachable: true });
    let mut conn = match opened {
        Ok(conn) => conn,
        Err(error) => panic!("no connection: {:?}", error),
    };
    conn.engine_mut().reply(Reply::Stream(vec![row("a")]));
    assert_eq!(conn.fetch_one("SELECT 'a'"), Ok("a".to_string()));

    let refused = Connection::establish(&ScriptedOptions { reachable: false });
    assert_eq!(refused.err(), Some(Error::WorkerCrashed));
}

#[test]
fn established_hands_a_failure_on() {
    let failed = Connection::established(Err(Error::Database("locked".to_string())));
    assert_eq!(failed.err(), Some(Error::Database("locked".to_string())));
}
