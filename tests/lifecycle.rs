use chuchi_postgres::db::{pool_error, Config, Conn, ConnOwned, DatabaseError, Db, PoolFailure, TimeoutKind, Trans};
use chuchi_postgres::migrations::{apply_action, init_action, ApplyAction, InitAction, Migrations};
use chuchi_postgres::filter::Value;
use chuchi_postgres::tx::{exit_action, InsertBatch, TxAction, TxState};

fn run_batch(total: usize, oks: &[bool], commit_ok: bool) -> InsertBatch {
    let mut b = InsertBatch::new(total);
    let mut outcomes = oks.iter();
    loop {
        match b.next_action() {
            TxAction::Insert(_) => b.record_insert(*outcomes.next().unwrap()),
            TxAction::Commit => b.record_commit(commit_ok),
            TxAction::Rollback => b.record_rollback(),
            TxAction::Done => return b,
        }
    }
}

#[test]
fn batch_with_a_failure_leaves_nothing() {
    let b = run_batch(4, &[true, false, true, true], true);
    assert_eq!(b.state, TxState::RolledBack);
    assert_eq!(b.visible(), 0);
}

#[test]
fn batch_all_ok_is_committed() {
    let b = run_batch(3, &[true, true, true], true);
    assert_eq!(b.state, TxState::Committed);
    assert_eq!(b.visible(), 3);
}

#[test]
fn batch_failed_commit_leaves_nothing() {
    let b = run_batch(2, &[true, true], false);
    assert_eq!(b.state, TxState::RolledBack);
    assert_eq!(b.visible(), 0);
}

#[test]
fn empty_batch_commits() {
    let b = run_batch(0, &[], true);
    assert_eq!(b.visible(), 0);
    assert_eq!(b.state, TxState::Committed);
}

#[test]
fn transaction_left_open_rolls_back() {
    assert_eq!(exit_action(TxState::Active), TxAction::Rollback);
    assert_eq!(exit_action(TxState::Failed), TxAction::Rollback);
    assert_eq!(exit_action(TxState::Committed), TxAction::Done);
    assert_eq!(exit_action(TxState::RolledBack), TxAction::Done);
}

#[test]
fn memory_handles() {
    let db: Db<u8> = Db::new_memory();
    assert!(db.is_memory());
    let owned: ConnOwned<u8> = ConnOwned::new(None);
    assert!(owned.conn().is_memory());
    let c: Conn<'_, u8> = Conn::new_memory();
    assert!(c.is_memory());
    let t: Trans<u8> = Trans::new(None);
    assert!(t.conn().is_memory());
}

#[test]
fn connected_handles() {
    let db = Db::with_pool(1u8);
    assert!(!db.is_memory());
    let owned = ConnOwned::new(Some(7u32));
    assert_eq!(*owned.conn().pg(), 7);
    let t = Trans::new(Some(9u32));
    assert_eq!(*t.conn().pg(), 9);
}

#[test]
fn pool_errors() {
    assert_eq!(
        pool_error(PoolFailure::Timeout(TimeoutKind::Wait)),
        DatabaseError::Timeout(TimeoutKind::Wait)
    );
    assert!(pool_error(PoolFailure::Timeout(TimeoutKind::Create)).is_retriable());
    let e = pool_error(PoolFailure::Backend("reset".to_string()));
    assert_eq!(e, DatabaseError::Connection("reset".to_string()));
    assert!(!e.is_retriable());
    assert_eq!(pool_error(PoolFailure::Closed), DatabaseError::PoolClosed);
    assert_eq!(
        pool_error(PoolFailure::Other("hook".to_string())),
        DatabaseError::Connection("hook".to_string())
    );
    assert!(!DatabaseError::Query("bad".to_string()).is_retriable());
    assert!(!DatabaseError::Cardinality(2).is_retriable());
}

#[test]
fn config_builder() {
    let c = Config::new()
        .host("db".to_string())
        .dbname("app".to_string())
        .user("me".to_string())
        .password("pw".to_string())
        .migration_table("done".to_string());
    assert_eq!(c.host.as_deref(), Some("db"));
    assert_eq!(c.dbname.as_deref(), Some("app"));
    assert_eq!(c.user.as_deref(), Some("me"));
    assert_eq!(c.password.as_deref(), Some("pw"));
    assert_eq!(c.migration_table.as_deref(), Some("done"));
    assert!(Config::new().host.is_none());
}

#[test]
fn migrations_default_table() {
    let m = Migrations::new(None);
    assert_eq!(m.table_name(), "migrations");
    assert_eq!(
        m.create_sql(),
        "CREATE TABLE IF NOT EXISTS \"migrations\" (\"name\" text PRIMARY KEY, \"applied_at\" timestamp);\n\
         CREATE INDEX IF NOT EXISTS \"migrations_applied_at_idx\" ON \"migrations\" (\"applied_at\");"
    );
}

#[test]
fn migrations_named_table() {
    let m = Migrations::new(Some("schema_log".to_string()));
    assert_eq!(m.table_name(), "schema_log");
    let (sql, params) = m.table_exists_sql();
    assert_eq!(
        sql,
        "SELECT EXISTS (SELECT FROM information_schema.tables WHERE table_schema = 'public' AND table_name = $1)"
    );
    assert_eq!(params, vec![Value::Text("schema_log".to_string())]);
    let (sql, params) = m.find_sql("m1");
    assert_eq!(
        sql,
        "SELECT \"name\", \"applied_at\" FROM \"schema_log\" WHERE \"name\" = $1"
    );
    assert_eq!(params, vec![Value::Text("m1".to_string())]);
    assert_eq!(
        m.record_sql(),
        "INSERT INTO \"schema_log\" (\"name\", \"applied_at\") VALUES ($1, $2)"
    );
    assert_eq!(
        Migrations::record_params("m1", 1700000000),
        vec![Value::Text("m1".to_string()), Value::Timestamp(1700000000)]
    );
}

#[test]
fn migration_decisions() {
    assert_eq!(init_action(false), InitAction::CreateTable);
    assert_eq!(init_action(true), InitAction::Nothing);
    assert_eq!(apply_action(false), ApplyAction::Execute);
    assert_eq!(apply_action(true), ApplyAction::Skip);
}

#[test]
fn migration_applied_twice_runs_once() {
    let mut recorded: Vec<String> = vec![];
    let mut runs = 0;
    for _ in 0..2 {
        let found = recorded.iter().any(|n| n == "m1");
        if apply_action(found) == ApplyAction::Execute {
            runs += 1;
            recorded.push("m1".to_string());
        }
    }
    assert_eq!(runs, 1);
    assert_eq!(recorded, vec!["m1".to_string()]);
}
