use sea_orm::database::transaction::{
    begin_failed, closing_action, exec_outcome, query_all_outcome, query_one_outcome, run_outcome,
};
use sea_orm::{
    AccessMode, ConnectionKind, DatabaseTransaction, DbBackend, DbErr, DriverCall, DriverError,
    ExecResult, IsolationLevel, QueryResult, RuntimeErr, Statement, StreamSource,
    TransactionError, TransactionStream, TxAction, Value,
};

/// A store that performs what a transaction asks of its driver.
struct Store {
    committed: Vec<i32>,
    pending: Vec<i32>,
    in_transaction: bool,
    fail_commit: bool,
}

impl Store {
    fn new() -> Store {
        Store {
            committed: vec![],
            pending: vec![],
            in_transaction: false,
            fail_commit: false,
        }
    }

    fn perform(&mut self, action: TxAction) -> Result<(), DbErr> {
        match action {
            TxAction::SetConfig { .. } => Ok(()),
            TxAction::Begin => {
                self.in_transaction = true;
                self.pending = self.committed.clone();
                Ok(())
            }
            TxAction::Commit => {
                if self.fail_commit {
                    return Err(DbErr::Query(RuntimeErr::Driver("commit failed".into())));
                }
                self.committed = self.pending.clone();
                self.in_transaction = false;
                Ok(())
            }
            TxAction::Rollback | TxAction::StartRollback => {
                self.pending.clear();
                self.in_transaction = false;
                Ok(())
            }
        }
    }

    fn write(&mut self, v: i32) {
        self.pending.push(v);
    }

    fn drop_transaction(&mut self, tx: DatabaseTransaction) {
        if let Some(action) = tx.start_rollback(true).expect("Fail to rollback transaction") {
            self.perform(action).unwrap();
        }
    }

    fn begin(&mut self) -> DatabaseTransaction {
        let (tx, steps) =
            DatabaseTransaction::begin(ConnectionKind::Mock, DbBackend::Postgres, None, None);
        for step in steps.unwrap() {
            self.perform(step).unwrap();
        }
        tx
    }

    fn run(&mut self, work: Result<i32, String>) -> Result<i32, TransactionError<String>> {
        let mut tx = self.begin();
        if let Ok(v) = &work {
            self.write(*v);
        } else {
            self.write(-1);
        }
        let action = closing_action(&work);
        let closing = match action {
            TxAction::Commit => tx.commit(),
            _ => tx.rollback(),
        }
        .and_then(|a| self.perform(a));
        let closing = tx.settle(closing);
        self.drop_transaction(tx);
        run_outcome(work, closing)
    }
}

#[test]
fn a_committed_write_persists_and_a_dropped_one_does_not() {
    let mut store = Store::new();
    let mut tx = store.begin();
    assert!(tx.is_open());
    store.write(1);
    let commit = tx.commit().unwrap();
    assert_eq!(commit, TxAction::Commit);
    let outcome = store.perform(commit);
    assert_eq!(tx.settle(outcome), Ok(()));
    assert!(!tx.is_open());
    store.drop_transaction(tx);
    assert_eq!(store.committed, vec![1]);

    let tx = store.begin();
    store.write(2);
    assert_eq!(tx.start_rollback(true), Ok(Some(TxAction::Rollback)));
    store.drop_transaction(tx);
    assert_eq!(store.committed, vec![1]);
    assert!(!store.in_transaction);
}

#[test]
fn an_explicit_rollback_closes_the_transaction() {
    let mut store = Store::new();
    let mut tx = store.begin();
    store.write(5);
    let rollback = tx.rollback().unwrap();
    assert_eq!(rollback, TxAction::Rollback);
    let outcome = store.perform(rollback);
    assert_eq!(tx.settle(outcome), Ok(()));
    assert_eq!(tx.start_rollback(true), Ok(None));
    assert_eq!(tx.start_rollback(false), Ok(None));
    assert_eq!(store.committed, Vec::<i32>::new());
}

#[test]
fn a_failed_work_is_told_from_a_failed_connection() {
    let mut store = Store::new();
    assert_eq!(store.run(Ok(3)), Ok(3));
    assert_eq!(store.committed, vec![3]);

    assert_eq!(
        store.run(Err("no stock".to_owned())),
        Err(TransactionError::Transaction("no stock".to_owned()))
    );
    assert_eq!(store.committed, vec![3]);

    store.fail_commit = true;
    let failed = store.run(Ok(4));
    assert!(matches!(failed, Err(TransactionError::Connection(_))));
    assert_eq!(store.committed, vec![3]);
    assert!(!store.in_transaction);

    assert_eq!(
        run_outcome::<i32, String>(
            Err("work".to_owned()),
            Err(DbErr::Conn(RuntimeErr::Internal("gone".into())))
        ),
        Err(TransactionError::Connection(DbErr::Conn(
            RuntimeErr::Internal("gone".into())
        )))
    );
    assert_eq!(
        begin_failed::<String>(DbErr::Custom("x".into())),
        TransactionError::Connection(DbErr::Custom("x".into()))
    );
    assert_eq!(closing_action::<i32, String>(&Ok(1)), TxAction::Commit);
    assert_eq!(
        closing_action::<i32, String>(&Err("e".into())),
        TxAction::Rollback
    );
}

#[test]
fn a_failed_commit_leaves_the_transaction_open_for_the_drop() {
    let (mut tx, _) =
        DatabaseTransaction::begin(ConnectionKind::Postgres, DbBackend::Postgres, None, None);
    let err = DbErr::Query(RuntimeErr::Driver("boom".into()));
    assert_eq!(tx.settle(Err(err.clone())), Err(err));
    assert!(tx.is_open());
    assert_eq!(tx.start_rollback(true), Ok(Some(TxAction::StartRollback)));
    assert!(matches!(tx.start_rollback(false), Err(DbErr::Conn(_))));
}

#[test]
fn the_steps_of_begin_follow_the_backend() {
    let level = Some(IsolationLevel::Serializable);
    let mode = Some(AccessMode::ReadOnly);
    let config = TxAction::SetConfig {
        isolation_level: level,
        access_mode: mode,
    };
    let steps = |kind| DatabaseTransaction::begin(kind, DbBackend::MySql, level, mode).1;
    assert_eq!(
        steps(ConnectionKind::MySql),
        Ok(vec![config, TxAction::Begin])
    );
    assert_eq!(
        steps(ConnectionKind::Postgres),
        Ok(vec![TxAction::Begin, config])
    );
    assert_eq!(
        steps(ConnectionKind::Sqlite),
        Ok(vec![config, TxAction::Begin])
    );
    assert_eq!(steps(ConnectionKind::Mock), Ok(vec![TxAction::Begin]));
    assert_eq!(steps(ConnectionKind::Proxy), Ok(vec![TxAction::Begin]));
    assert_eq!(
        steps(ConnectionKind::Disconnected),
        Err(DbErr::Conn(RuntimeErr::Internal("Disconnected".into())))
    );
}

#[test]
fn a_nested_transaction_shares_the_connection() {
    let (outer, _) =
        DatabaseTransaction::begin(ConnectionKind::Sqlite, DbBackend::Sqlite, None, None);
    let (inner, steps) = outer.begin_nested(None, Some(AccessMode::ReadWrite));
    assert_eq!(inner.get_database_backend(), DbBackend::Sqlite);
    assert!(inner.is_open());
    assert_eq!(
        steps,
        Ok(vec![
            TxAction::SetConfig {
                isolation_level: None,
                access_mode: Some(AccessMode::ReadWrite)
            },
            TxAction::Begin
        ])
    );
}

#[test]
fn without_a_connection_every_operation_is_a_connection_error() {
    let (tx, steps) =
        DatabaseTransaction::begin(ConnectionKind::Disconnected, DbBackend::MySql, None, None);
    let disconnected = DbErr::Conn(RuntimeErr::Internal("Disconnected".into()));
    assert_eq!(steps, Err(disconnected.clone()));
    assert_eq!(tx.commit(), Err(disconnected.clone()));
    assert_eq!(tx.rollback(), Err(disconnected.clone()));
    assert_eq!(tx.start_rollback(true), Err(disconnected.clone()));
    assert_eq!(
        tx.start_rollback(false),
        Err(DbErr::Conn(RuntimeErr::Internal(
            "Dropping a locked Transaction".into()
        )))
    );
    let stmt = Statement::from_string(DbBackend::MySql, "SELECT 1");
    assert_eq!(tx.execute_raw(stmt.clone()), Err(disconnected.clone()));
    assert_eq!(tx.execute_unprepared("SELECT 1"), Err(disconnected.clone()));
    assert_eq!(tx.query_one_raw(stmt.clone()), Err(disconnected.clone()));
    assert_eq!(tx.query_all_raw(stmt), Err(disconnected));
}

#[test]
fn statements_are_handed_to_the_driver_of_the_connection() {
    let stmt = Statement::from_sql_and_values(
        DbBackend::Postgres,
        "SELECT $1",
        vec![Value::Int(Some(1))],
    );
    let (wire, _) =
        DatabaseTransaction::begin(ConnectionKind::Postgres, DbBackend::Postgres, None, None);
    assert_eq!(
        wire.execute_raw(stmt.clone()),
        Ok(DriverCall::Execute(stmt.clone()))
    );
    assert_eq!(
        wire.query_one_raw(stmt.clone()),
        Ok(DriverCall::FetchOne(stmt.clone()))
    );
    assert_eq!(
        wire.query_all_raw(stmt.clone()),
        Ok(DriverCall::FetchAll(stmt.clone()))
    );
    assert_eq!(
        wire.execute_unprepared("DELETE FROM cake"),
        Ok(DriverCall::ExecuteUnprepared("DELETE FROM cake".to_owned()))
    );
    let (mock, _) =
        DatabaseTransaction::begin(ConnectionKind::Mock, DbBackend::Sqlite, None, None);
    assert_eq!(
        mock.execute_unprepared("DELETE FROM cake"),
        Ok(DriverCall::Execute(Statement::from_string(
            DbBackend::Sqlite,
            "DELETE FROM cake"
        )))
    );
}

#[test]
fn the_answers_of_a_wire_driver() {
    let done = ExecResult {
        last_insert_id: 1,
        rows_affected: 2,
    };
    assert_eq!(exec_outcome(Ok(done)), Ok(done));
    assert_eq!(
        exec_outcome(Err(DriverError::Other("dup".into()))),
        Err(DbErr::Exec(RuntimeErr::Driver("dup".into())))
    );
    let row = QueryResult::new(vec![("id".to_owned(), Value::Int(Some(1)))]);
    assert_eq!(query_one_outcome(Ok(row.clone())), Ok(Some(row.clone())));
    assert_eq!(query_one_outcome(Err(DriverError::RowNotFound)), Ok(None));
    assert_eq!(
        query_one_outcome(Err(DriverError::Other("syntax".into()))),
        Err(DbErr::Query(RuntimeErr::Driver("syntax".into())))
    );
    assert_eq!(query_all_outcome(Ok(vec![row.clone()])), Ok(vec![row]));
    assert_eq!(
        query_all_outcome(Err(DriverError::Other("syntax".into()))),
        Err(DbErr::Query(RuntimeErr::Driver("syntax".into())))
    );
}

#[test]
fn a_stream_yields_rows_until_its_source_ends() {
    let stmt = Statement::from_string(DbBackend::Postgres, "SELECT 1");
    let mut stream = TransactionStream::build(ConnectionKind::Postgres, stmt.clone(), true);
    assert_eq!(stream.get_source(), StreamSource::Driver);
    assert!(stream.is_timed());
    assert_eq!(stream.statement(), &stmt);
    let row = QueryResult::new(vec![("a".to_owned(), Value::Bool(Some(true)))]);
    assert_eq!(stream.poll_next(Some(Ok(row.clone()))), Some(Ok(row.clone())));
    assert_eq!(
        stream.poll_next(Some(Err("lost".to_owned()))),
        Some(Err(DbErr::Query(RuntimeErr::Driver("lost".into()))))
    );
    assert!(!stream.is_drained());
    assert_eq!(stream.poll_next(None), None);
    assert!(stream.is_drained());
    // a drained stream yields the end, not an error, whatever the source says
    assert_eq!(stream.poll_next(Some(Ok(row))), None);
    assert_eq!(stream.poll_next(None), None);

    let mut mock = TransactionStream::build(ConnectionKind::Mock, stmt.clone(), false);
    assert_eq!(mock.get_source(), StreamSource::Mock);
    assert!(!mock.is_timed());
    assert_eq!(mock.poll_next(None), None);

    let mut proxy = TransactionStream::build(ConnectionKind::Proxy, stmt, false);
    assert_eq!(proxy.get_source(), StreamSource::Unsupported);
    assert_eq!(
        proxy.poll_next(None),
        Some(Err(DbErr::BackendNotSupported {
            db: "Proxy".into(),
            ctx: "TransactionStream".into()
        }))
    );
    assert_eq!(proxy.poll_next(None), None);
}
