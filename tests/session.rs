use sqlbridge::classify::QueryShape;
use sqlbridge::error::BridgeError;
use sqlbridge::mysqlcmd;
use sqlbridge::objects::connected_message;
use sqlbridge::pgcmd;

#[test]
fn mysql_execute_before_connect_is_not_connected() {
    let s: mysqlcmd::DbConnection<u32> = mysqlcmd::DbConnection::new();
    assert!(matches!(s.plan_execute("SELECT 1"), Err(BridgeError::NotConnected)));
    assert!(matches!(s.pool(), Err(BridgeError::NotConnected)));
    assert!(matches!(s.plan_selection("sales"), Err(BridgeError::NotConnected)));
}

#[test]
fn pg_execute_before_connect_is_not_connected() {
    let mut s: pgcmd::DbConnection<u32> = pgcmd::DbConnection::new();
    assert!(matches!(s.plan_execute("SELECT 1"), Err(BridgeError::NotConnected)));
    assert!(matches!(s.plan_selection("sales"), Err(BridgeError::NoConnectionString)));
    assert_eq!(s.plan_selection("sales").err().unwrap().message(), "No connection string available");
    assert!(matches!(s.get_client(), Err(BridgeError::NotConnected)));
    assert!(s.selected_database().is_none());
}

#[test]
fn execute_before_selection_needs_a_database() {
    let mut m: mysqlcmd::DbConnection<u32> = mysqlcmd::DbConnection::new();
    m.connect(1);
    assert!(matches!(m.plan_execute("SELECT 1"), Err(BridgeError::NoDatabaseSelected)));
    let mut p: pgcmd::DbConnection<u32> = pgcmd::DbConnection::new();
    p.connect(1, "postgres://u@h:5432".to_string());
    assert!(matches!(p.plan_execute("SELECT 1"), Err(BridgeError::NoDatabaseSelected)));
}

#[test]
fn mysql_selection_is_reasserted_before_queries() {
    let mut m: mysqlcmd::DbConnection<u32> = mysqlcmd::DbConnection::new();
    m.connect(1);
    let plan = m.plan_selection("sales").ok().unwrap();
    assert_eq!(plan.use_statement, "USE sales");
    assert_eq!(plan.catalog.tables, "SHOW TABLES");
    assert_eq!(
        plan.catalog.views,
        "SELECT TABLE_NAME FROM INFORMATION_SCHEMA.VIEWS WHERE TABLE_SCHEMA = 'sales'"
    );
    m.record_selection("sales");
    let exec = m.plan_execute("SELECT 1").ok().unwrap();
    assert_eq!(exec.reselect, "USE sales");
    assert_eq!(exec.shape, QueryShape::RowSet);
    m.record_selection("inventory");
    let exec = m.plan_execute("DELETE FROM t WHERE id=1").ok().unwrap();
    assert_eq!(exec.reselect, "USE inventory");
    assert_eq!(exec.shape, QueryShape::Statement);
    assert_eq!(m.selected_database().unwrap(), "inventory");
}

#[test]
fn mysql_reconnect_replaces_pool_and_keeps_selection() {
    let mut m: mysqlcmd::DbConnection<u32> = mysqlcmd::DbConnection::new();
    m.connect(1);
    m.record_selection("sales");
    m.connect(2);
    assert_eq!(*m.pool().ok().unwrap(), 2);
    assert_eq!(m.selected_database().unwrap(), "sales");
}

#[test]
fn pg_reconnect_replaces_everything() {
    let mut p: pgcmd::DbConnection<u32> = pgcmd::DbConnection::new();
    p.connect(1, "postgres://a@h1".to_string());
    p.switch_database(3, "postgres://a@h1/sales".to_string(), "sales");
    p.connect(2, "postgres://b@h2".to_string());
    assert_eq!(*p.get_client().ok().unwrap(), 2);
    assert!(p.selected_database().is_none());
    assert_eq!(p.plan_selection("x").ok().unwrap(), "postgres://b@h2/x");
}

#[test]
fn pg_switch_records_database() {
    let mut p: pgcmd::DbConnection<u32> = pgcmd::DbConnection::new();
    p.connect(1, "postgres://u:pw@host:5432/postgres".to_string());
    let d = p.plan_selection("sales").ok().unwrap();
    assert_eq!(d, "postgres://u:pw@host:5432/sales");
    p.switch_database(5, d, "sales");
    assert_eq!(p.selected_database().unwrap(), "sales");
    assert_eq!(p.plan_execute("show search_path").ok().unwrap(), QueryShape::RowSet);
    assert_eq!(p.plan_selection("inventory").ok().unwrap(), "postgres://u:pw@host:5432/inventory");
}

#[test]
fn pg_descriptor_retargeting() {
    assert_eq!(pgcmd::retarget("postgres://u@h", "db"), "postgres://u@h/db");
    assert_eq!(pgcmd::retarget("postgres://u@h/", "db"), "postgres://u@h/db");
    assert_eq!(pgcmd::retarget("postgres://u@h/old/more", "db"), "postgres://u@h/db");
    assert_eq!(pgcmd::retarget("host=h user=u", "db"), "host=h user=u/db");
    assert_eq!(
        pgcmd::retarget("postgres://u@h:5432/old?sslmode=require", "db"),
        "postgres://u@h:5432/db?sslmode=require"
    );
    assert_eq!(pgcmd::retarget("postgres://u@h?sslmode=require", "db"), "postgres://u@h/db?sslmode=require");
    assert_eq!(pgcmd::retarget("postgres://u@h?a=/x", "db"), "postgres://u@h/db?a=/x");
    assert_eq!(pgcmd::find("a://b/c", "/", 4), Some(5));
    assert_eq!(pgcmd::find("abc", "/", 0), None);
}

#[test]
fn pg_catalog_queries_use_public_schema() {
    let q = pgcmd::catalog_queries();
    assert_eq!(q.tables, "SELECT table_name FROM information_schema.tables WHERE table_schema = 'public'");
    assert!(q.functions.contains("'FUNCTION'"));
}

#[test]
fn error_messages() {
    assert_eq!(BridgeError::NotConnected.message(), "Database not connected");
    assert_eq!(
        BridgeError::NoDatabaseSelected.message(),
        "No database selected. Please select a database first."
    );
    assert_eq!(BridgeError::QueryFailed("boom".to_string()).message(), "Query execution error: boom");
    assert_eq!(BridgeError::ConnectionFailed("refused".to_string()).message(), "refused");
    assert_eq!(BridgeError::BackendError("bad".to_string()).message(), "bad");
    assert_eq!(BridgeError::LockUnavailable("poisoned".to_string()).message(), "poisoned");
    assert_eq!(connected_message(), "Connected successfully");
}

#[test]
fn pg_connected_session_hands_out_its_client() {
    let mut p: pgcmd::DbConnection<u32> = pgcmd::DbConnection::new();
    p.connect(7, "postgres://u@h".to_string());
    assert_eq!(*p.get_client().ok().unwrap(), 7);
    assert!(p.selected_database().is_none());
    assert_eq!(pgcmd::database_list_query(), "SELECT datname FROM pg_database WHERE datistemplate = false");
}
