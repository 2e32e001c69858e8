use aluforce::auth;
use aluforce::database;
use aluforce::error::AppError;
use aluforce::models::{LoginResponse, UsuarioPublico};
use aluforce::sql::{Row, SqlValue, Statement};
use rusqlite::types::Value;
use rusqlite::{params_from_iter, Connection};

fn bind(v: &SqlValue) -> Value {
    match v {
        SqlValue::Null => Value::Null,
        SqlValue::Integer(n) => Value::Integer(*n),
        SqlValue::Real => Value::Null,
        SqlValue::Text(s) => Value::Text(s.clone()),
        SqlValue::Blob(b) => Value::Blob(b.clone()),
    }
}

fn read(v: Value) -> SqlValue {
    match v {
        Value::Null => SqlValue::Null,
        Value::Integer(n) => SqlValue::Integer(n),
        Value::Real(_) => SqlValue::Real,
        Value::Text(s) => SqlValue::Text(s),
        Value::Blob(b) => SqlValue::Blob(b),
    }
}

fn store_error(e: rusqlite::Error) -> AppError {
    AppError::Database(e.to_string())
}

fn run(conn: &Connection, st: &Statement) -> Result<(), AppError> {
    if st.params.is_empty() {
        conn.execute_batch(&st.sql).map_err(store_error)
    } else {
        conn.execute(&st.sql, params_from_iter(st.params.iter().map(bind)))
            .map(|_| ())
            .map_err(store_error)
    }
}

fn query(conn: &Connection, st: &Statement) -> Result<Vec<Row>, AppError> {
    let mut stmt = conn.prepare(&st.sql).map_err(store_error)?;
    let n = stmt.column_count();
    let rows = stmt
        .query_map(params_from_iter(st.params.iter().map(bind)), |row| {
            (0..n).map(|i| row.get::<_, Value>(i).map(read)).collect::<Result<Vec<_>, _>>()
        })
        .map_err(store_error)?;
    rows.collect::<Result<Vec<_>, _>>().map_err(store_error)
}

fn create_schema(conn: &Connection) {
    run(conn, &database::pragma_statement()).unwrap();
    for st in database::schema() {
        run(conn, &st).unwrap();
    }
}

fn initialize(conn: &Connection) -> Result<(), AppError> {
    run(conn, &database::pragma_statement())?;
    for st in database::schema() {
        run(conn, &st)?;
    }
    let answer = query(conn, &database::bootstrap_count_statement());
    for st in database::seed_plan(&answer)? {
        run(conn, &st)?;
    }
    Ok(())
}

fn login(conn: &Connection, email: &str, password: &str) -> Result<LoginResponse, AppError> {
    let answer = query(conn, &auth::login_query(email));
    let plan = auth::login_plan(password, &answer)?;
    for st in &plan.writes {
        run(conn, st)?;
    }
    Ok(plan.response)
}

fn logout(conn: &Connection, token: &str) -> Result<bool, AppError> {
    run(conn, &auth::logout_statement(token))?;
    Ok(true)
}

fn validate(conn: &Connection, token: &str) -> bool {
    auth::validate_session(&query(conn, &auth::session_query(token)))
}

fn current(conn: &Connection, token: &str) -> Option<UsuarioPublico> {
    auth::current_user(&query(conn, &auth::current_user_query(token)))
}

fn change_password(conn: &Connection, id: i64, current: &str, new: &str) -> Result<bool, AppError> {
    let answer = query(conn, &auth::password_hash_query(id));
    for st in auth::change_password_plan(id, current, new, answer)? {
        run(conn, &st)?;
    }
    Ok(true)
}

fn count(conn: &Connection, sql: &str) -> i64 {
    conn.query_row(sql, [], |r| r.get(0)).unwrap()
}

fn add_account(conn: &Connection, email: &str, password: &str, active: i64) -> i64 {
    let hash = bcrypt::hash(password, 4).unwrap();
    conn.execute(
        "INSERT INTO usuarios (nome, email, senha_hash, ativo) VALUES (?1, ?2, ?3, ?4)",
        ("Maria", email, hash, active),
    )
    .unwrap();
    conn.last_insert_rowid()
}

fn stored_hash(conn: &Connection, id: i64) -> String {
    conn.query_row("SELECT senha_hash FROM usuarios WHERE id = ?1", [id], |r| r.get(0)).unwrap()
}

#[test]
fn repeated_initialization_seeds_once() {
    let conn = Connection::open_in_memory().unwrap();
    initialize(&conn).unwrap();
    initialize(&conn).unwrap();
    initialize(&conn).unwrap();
    assert_eq!(count(&conn, "SELECT COUNT(*) FROM usuarios WHERE email = 'admin@aluforce.com.br'"), 1);
    assert_eq!(count(&conn, "SELECT COUNT(*) FROM empresas"), 1);
    assert_eq!(count(&conn, "SELECT COUNT(*) FROM sqlite_master WHERE type = 'table' AND name NOT LIKE 'sqlite_%'"), 16);
    assert_eq!(count(&conn, "SELECT COUNT(*) FROM sqlite_master WHERE type = 'index' AND name LIKE 'idx_%'"), 10);
}

#[test]
fn initialization_after_other_accounts_keeps_one_bootstrap() {
    let conn = Connection::open_in_memory().unwrap();
    initialize(&conn).unwrap();
    add_account(&conn, "maria@example.com", "s3cret", 1);
    initialize(&conn).unwrap();
    assert_eq!(count(&conn, "SELECT COUNT(*) FROM usuarios WHERE email = 'admin@aluforce.com.br'"), 1);
    assert_eq!(count(&conn, "SELECT COUNT(*) FROM usuarios"), 2);
    assert_eq!(count(&conn, "SELECT COUNT(*) FROM empresas"), 1);
}

#[test]
fn seeded_administrator_can_log_in() {
    let conn = Connection::open_in_memory().unwrap();
    initialize(&conn).unwrap();
    let r = login(&conn, database::BOOTSTRAP_EMAIL, database::BOOTSTRAP_PASSWORD).unwrap();
    assert!(r.success);
    let u = r.usuario.unwrap();
    assert_eq!(u.email, "admin@aluforce.com.br");
    assert_eq!(u.cargo.as_deref(), Some("Administrador"));
    assert_eq!(u.permissoes["admin"], serde_json::Value::Bool(true));
}

#[test]
fn login_then_validate_round_trip() {
    let conn = Connection::open_in_memory().unwrap();
    create_schema(&conn);
    let id = add_account(&conn, "maria@example.com", "s3cret", 1);
    let r = login(&conn, "maria@example.com", "s3cret").unwrap();
    assert!(r.success);
    assert!(r.message.is_none());
    let token = r.token.unwrap();
    assert_eq!(token.len(), 36);
    assert!(validate(&conn, &token));
    let u = current(&conn, &token).unwrap();
    assert_eq!(u.id, id);
    assert_eq!(u.email, "maria@example.com");
    assert!(u.permissoes.is_object());
    assert_eq!(count(&conn, "SELECT COUNT(*) FROM sessoes"), 1);
    let touched: Option<String> =
        conn.query_row("SELECT ultimo_acesso FROM usuarios WHERE id = ?1", [id], |r| r.get(0)).unwrap();
    assert!(touched.is_some());
}

#[test]
fn session_expiry_is_a_day_after_issue() {
    let conn = Connection::open_in_memory().unwrap();
    create_schema(&conn);
    add_account(&conn, "maria@example.com", "s3cret", 1);
    let token = login(&conn, "maria@example.com", "s3cret").unwrap().token.unwrap();
    let expires: String =
        conn.query_row("SELECT expires_at FROM sessoes WHERE token = ?1", [&token], |r| r.get(0)).unwrap();
    assert_eq!(expires.len(), 19);
    assert_eq!(&expires[10..11], " ");
    let lower: String = conn.query_row("SELECT datetime('now', '+86390 seconds')", [], |r| r.get(0)).unwrap();
    let upper: String = conn.query_row("SELECT datetime('now', '+86410 seconds')", [], |r| r.get(0)).unwrap();
    assert!(expires > lower && expires < upper);
}

#[test]
fn each_login_adds_a_session() {
    let conn = Connection::open_in_memory().unwrap();
    create_schema(&conn);
    add_account(&conn, "maria@example.com", "s3cret", 1);
    let a = login(&conn, "maria@example.com", "s3cret").unwrap().token.unwrap();
    let b = login(&conn, "maria@example.com", "s3cret").unwrap().token.unwrap();
    assert_ne!(a, b);
    assert_eq!(count(&conn, "SELECT COUNT(*) FROM sessoes"), 2);
    assert!(validate(&conn, &a));
    assert!(validate(&conn, &b));
}

#[test]
fn expired_session_is_rejected_though_stored() {
    let conn = Connection::open_in_memory().unwrap();
    create_schema(&conn);
    add_account(&conn, "maria@example.com", "s3cret", 1);
    let token = login(&conn, "maria@example.com", "s3cret").unwrap().token.unwrap();
    conn.execute(
        "UPDATE sessoes SET expires_at = datetime('now', '-1 second') WHERE token = ?1",
        [&token],
    )
    .unwrap();
    assert!(!validate(&conn, &token));
    assert!(current(&conn, &token).is_none());
    assert_eq!(count(&conn, "SELECT COUNT(*) FROM sessoes"), 1);
}

#[test]
fn logout_revokes_and_repeats_quietly() {
    let conn = Connection::open_in_memory().unwrap();
    create_schema(&conn);
    add_account(&conn, "maria@example.com", "s3cret", 1);
    let token = login(&conn, "maria@example.com", "s3cret").unwrap().token.unwrap();
    assert_eq!(logout(&conn, &token).unwrap(), true);
    assert!(!validate(&conn, &token));
    assert!(current(&conn, &token).is_none());
    assert_eq!(logout(&conn, &token).unwrap(), true);
    assert_eq!(count(&conn, "SELECT COUNT(*) FROM sessoes"), 0);
}

#[test]
fn wrong_current_password_changes_nothing() {
    let conn = Connection::open_in_memory().unwrap();
    create_schema(&conn);
    let id = add_account(&conn, "maria@example.com", "s3cret", 1);
    let before = stored_hash(&conn, id);
    let e = change_password(&conn, id, "wrong-current", "new").unwrap_err();
    assert_eq!(e, AppError::Authentication("Senha atual incorreta".to_string()));
    assert_eq!(stored_hash(&conn, id), before);
    assert!(login(&conn, "maria@example.com", "s3cret").unwrap().success);
}

#[test]
fn password_change_replaces_hash_and_keeps_sessions() {
    let conn = Connection::open_in_memory().unwrap();
    create_schema(&conn);
    let id = add_account(&conn, "maria@example.com", "s3cret", 1);
    let token = login(&conn, "maria@example.com", "s3cret").unwrap().token.unwrap();
    assert_eq!(change_password(&conn, id, "s3cret", "n3w").unwrap(), true);
    assert!(validate(&conn, &token));
    let old = login(&conn, "maria@example.com", "s3cret").unwrap();
    assert!(!old.success);
    assert_eq!(old.message.as_deref(), Some("Senha incorreta"));
}

#[test]
fn password_change_for_missing_account_is_a_store_error() {
    let conn = Connection::open_in_memory().unwrap();
    create_schema(&conn);
    let e = change_password(&conn, 42, "a", "b").unwrap_err();
    assert_eq!(e, AppError::Database("Query returned no rows".to_string()));
}

#[test]
fn login_failures_name_their_reason() {
    let conn = Connection::open_in_memory().unwrap();
    create_schema(&conn);
    add_account(&conn, "maria@example.com", "s3cret", 1);
    let missing = login(&conn, "nobody@example.com", "s3cret").unwrap();
    assert!(!missing.success);
    assert!(missing.token.is_none() && missing.usuario.is_none());
    assert_eq!(missing.message.as_deref(), Some("Usuário não encontrado"));
    let wrong = login(&conn, "maria@example.com", "nope").unwrap();
    assert!(!wrong.success);
    assert_eq!(wrong.message.as_deref(), Some("Senha incorreta"));
    assert_eq!(count(&conn, "SELECT COUNT(*) FROM sessoes"), 0);
}

#[test]
fn login_is_case_sensitive_on_email() {
    let conn = Connection::open_in_memory().unwrap();
    create_schema(&conn);
    add_account(&conn, "maria@example.com", "s3cret", 1);
    let r = login(&conn, "Maria@example.com", "s3cret").unwrap();
    assert_eq!(r.message.as_deref(), Some("Usuário não encontrado"));
}

#[test]
fn inactive_account_cannot_log_in_or_be_current() {
    let conn = Connection::open_in_memory().unwrap();
    create_schema(&conn);
    let id = add_account(&conn, "maria@example.com", "s3cret", 1);
    let token = login(&conn, "maria@example.com", "s3cret").unwrap().token.unwrap();
    conn.execute("UPDATE usuarios SET ativo = 0 WHERE id = ?1", [id]).unwrap();
    assert!(current(&conn, &token).is_none());
    assert!(validate(&conn, &token));
    let r = login(&conn, "maria@example.com", "s3cret").unwrap();
    assert_eq!(r.message.as_deref(), Some("Usuário não encontrado"));
}

#[test]
fn unreadable_permissions_become_an_empty_mapping() {
    let conn = Connection::open_in_memory().unwrap();
    create_schema(&conn);
    let id = add_account(&conn, "maria@example.com", "s3cret", 1);
    conn.execute("UPDATE usuarios SET permissoes = 'not json' WHERE id = ?1", [id]).unwrap();
    let u = login(&conn, "maria@example.com", "s3cret").unwrap().usuario.unwrap();
    assert_eq!(u.permissoes, serde_json::Value::Object(serde_json::Map::new()));
}

#[test]
fn unknown_token_is_not_valid() {
    let conn = Connection::open_in_memory().unwrap();
    create_schema(&conn);
    assert!(!validate(&conn, "no-such-token"));
    assert!(current(&conn, "no-such-token").is_none());
}

#[test]
fn session_token_is_unique_in_store() {
    let conn = Connection::open_in_memory().unwrap();
    create_schema(&conn);
    let id = add_account(&conn, "maria@example.com", "s3cret", 1);
    let insert = "INSERT INTO sessoes (id, usuario_id, token, expires_at) VALUES (?1, ?2, 'same', '2999-01-01 00:00:00')";
    conn.execute(insert, ("a", id)).unwrap();
    assert!(conn.execute(insert, ("b", id)).is_err());
}

#[test]
fn missing_backup_is_not_found() {
    let e = database::restore_check(false).unwrap_err();
    assert_eq!(e, AppError::NotFound("Arquivo de backup não encontrado".to_string()));
    assert_eq!(database::restore_check(true), Ok(()));
}
