use aluforce::auth;
use aluforce::crypto::check_password;
use aluforce::database;
use aluforce::error::{AppError, ErrorResponse};
use aluforce::models::PaginatedResponse;
use aluforce::schema;
use aluforce::sql::{read_optional_text, Row, SqlValue};
use aluforce::timestamp::is_later;

fn text(s: &str) -> SqlValue {
    SqlValue::Text(s.to_string())
}

fn account_row(id: i64, email: &str, hash: &str, active: i64) -> Row {
    vec![
        SqlValue::Integer(id),
        text("Maria"),
        text(email),
        text(hash),
        text("Gerente"),
        SqlValue::Null,
        SqlValue::Null,
        SqlValue::Integer(active),
        text("{\"vendas\": true}"),
        SqlValue::Null,
        text("2024-01-01 00:00:00"),
        text("2024-01-01 00:00:00"),
    ]
}

#[test]
fn error_codes_by_kind() {
    let cases = vec![
        (AppError::Database("x".to_string()), "DATABASE_ERROR"),
        (AppError::Authentication("x".to_string()), "AUTH_ERROR"),
        (AppError::Authorization("x".to_string()), "FORBIDDEN"),
        (AppError::NotFound("x".to_string()), "NOT_FOUND"),
        (AppError::Validation("x".to_string()), "VALIDATION_ERROR"),
        (AppError::Internal("x".to_string()), "INTERNAL_ERROR"),
        (AppError::Io("x".to_string()), "IO_ERROR"),
        (AppError::Serialization("x".to_string()), "SERIALIZATION_ERROR"),
    ];
    for (e, code) in cases {
        assert_eq!(e.code(), code);
        let r = ErrorResponse::from_error(e);
        assert_eq!(r.code, code);
        assert_eq!(r.message, "x");
        assert_eq!(r.details, None);
    }
}

#[test]
fn error_message_has_heading_and_detail() {
    assert_eq!(
        AppError::NotFound("Arquivo".to_string()).message(),
        "Recurso não encontrado: Arquivo"
    );
    assert_eq!(AppError::Database("falhou".to_string()).message(), "Erro de banco de dados: falhou");
    assert_eq!(AppError::Authentication("a".to_string()).detail(), "a");
}

#[test]
fn page_count_rounds_up() {
    assert_eq!(PaginatedResponse::new(vec![1, 2], 10, 1, 3).total_pages, 4);
    assert_eq!(PaginatedResponse::new(vec![1], 9, 1, 3).total_pages, 3);
    assert_eq!(PaginatedResponse::<i32>::new(vec![], 0, 1, 20).total_pages, 0);
    assert_eq!(PaginatedResponse::<i32>::new(vec![], 1, 1, 20).total_pages, 1);
    let p = PaginatedResponse::new(vec!["a"], 41, 2, 20);
    assert_eq!((p.data, p.total, p.page, p.per_page, p.total_pages), (vec!["a"], 41, 2, 20, 3));
}

#[test]
fn page_count_edges() {
    assert_eq!(PaginatedResponse::<i32>::new(vec![], 5, 1, 0).total_pages, i64::MAX);
    assert_eq!(PaginatedResponse::<i32>::new(vec![], -5, 1, 0).total_pages, i64::MIN);
    assert_eq!(PaginatedResponse::<i32>::new(vec![], 0, 1, 0).total_pages, 0);
    assert_eq!(PaginatedResponse::<i32>::new(vec![], -7, 1, 2).total_pages, -3);
    assert_eq!(PaginatedResponse::<i32>::new(vec![], -7, 1, -2).total_pages, 4);
    assert_eq!(PaginatedResponse::<i32>::new(vec![], i64::MIN, 1, -1).total_pages, i64::MAX);
    assert_eq!(PaginatedResponse::<i32>::new(vec![], i64::MAX, 1, 1).total_pages, i64::MAX);
}

#[test]
fn schema_lists_tables_before_their_references() {
    let tables = schema::schema_tables();
    assert_eq!(tables.len(), schema::TABLE_COUNT);
    for (i, t) in tables.iter().enumerate() {
        for fk in &t.foreign_keys {
            assert!(fk.target < i, "{} refers forward", t.name);
        }
    }
    assert_eq!(tables[schema::SESSOES].foreign_keys[0].target, schema::USUARIOS);
    assert_eq!(schema::schema_indexes().len(), schema::INDEX_COUNT);
}

#[test]
fn schema_statements_create_only_when_absent() {
    let all = database::schema();
    assert_eq!(all.len(), 26);
    for st in &all {
        assert!(
            st.sql.starts_with("CREATE TABLE IF NOT EXISTS ")
                || st.sql.starts_with("CREATE INDEX IF NOT EXISTS ")
        );
        assert!(st.params.is_empty());
    }
    assert!(all[1].sql.starts_with("CREATE TABLE IF NOT EXISTS sessoes (\n    id TEXT PRIMARY KEY"));
    assert!(all[1].sql.ends_with(",\n    FOREIGN KEY (usuario_id) REFERENCES usuarios(id)\n)"));
    assert!(all[7].sql.contains("REFERENCES pedidos_venda(id) ON DELETE CASCADE"));
    assert_eq!(all[16].sql, "CREATE INDEX IF NOT EXISTS idx_clientes_nome ON clientes(nome)");
}

#[test]
fn text_order_of_instants() {
    assert!(is_later("2024-05-02 00:00:00", "2024-05-01 23:59:59"));
    assert!(!is_later("2024-05-01 23:59:59", "2024-05-02 00:00:00"));
    assert!(!is_later("2024-05-01 10:00:00", "2024-05-01 10:00:00"));
    assert!(is_later("2024-05-01 10:00:00", "2024-05-01 10:00"));
    assert!(!is_later("", ""));
    assert!(is_later("a", ""));
}

#[test]
fn validation_reads_expiry_against_store_clock() {
    let fresh: Row = vec![text("2024-05-02 10:00:00"), text("2024-05-01 10:00:00")];
    let stale: Row = vec![text("2024-05-01 09:59:59"), text("2024-05-01 10:00:00")];
    assert!(auth::validate_session(&Ok(vec![fresh.clone()])));
    assert!(!auth::validate_session(&Ok(vec![stale.clone()])));
    assert!(auth::validate_session(&Ok(vec![stale.clone(), fresh])));
    assert!(!auth::validate_session(&Ok(vec![])));
    assert!(!auth::validate_session(&Err(AppError::Database("locked".to_string()))));
}

#[test]
fn account_rows_decode() {
    let u = auth::decode_account(&account_row(7, "m@x.com", "h", 1)).unwrap();
    assert_eq!(u.id, 7);
    assert_eq!(u.email, "m@x.com");
    assert_eq!(u.cargo.as_deref(), Some("Gerente"));
    assert_eq!(u.departamento, None);
    assert!(u.ativo);
    assert_eq!(u.permissoes["vendas"], serde_json::Value::Bool(true));
    let mut short = account_row(7, "m@x.com", "h", 1);
    short.pop();
    assert!(auth::decode_account(&short).is_none());
    assert_eq!(read_optional_text(&vec![SqlValue::Integer(1)], 0), None);
}

#[test]
fn current_user_needs_active_unexpired_session() {
    let mut row = account_row(3, "m@x.com", "h", 1);
    row.push(text("2024-05-02 10:00:00"));
    row.push(text("2024-05-01 10:00:00"));
    let p = auth::current_user(&Ok(vec![row.clone()])).unwrap();
    assert_eq!((p.id, p.email.as_str()), (3, "m@x.com"));
    let mut expired = row.clone();
    expired[12] = text("2024-05-01 09:00:00");
    assert!(auth::current_user(&Ok(vec![expired])).is_none());
    let mut inactive = row;
    inactive[7] = SqlValue::Integer(0);
    assert!(auth::current_user(&Ok(vec![inactive])).is_none());
}

#[test]
fn login_without_account_writes_nothing() {
    let plan = auth::login_plan("pw", &Ok(vec![])).unwrap();
    assert!(plan.writes.is_empty());
    assert_eq!(plan.response.message.as_deref(), Some("Usuário não encontrado"));
    let plan = auth::login_plan("pw", &Ok(vec![account_row(1, "m@x.com", "h", 0)])).unwrap();
    assert_eq!(plan.response.message.as_deref(), Some("Usuário não encontrado"));
    let plan = auth::login_plan("pw", &Err(AppError::Database("no table".to_string()))).unwrap();
    assert!(!plan.response.success);
}

#[test]
fn login_with_unreadable_hash_is_refused() {
    let plan = auth::login_plan("pw", &Ok(vec![account_row(1, "m@x.com", "not-a-hash", 1)])).unwrap();
    assert!(!plan.response.success);
    assert_eq!(plan.response.message.as_deref(), Some("Senha incorreta"));
    assert!(!check_password("pw", "not-a-hash"));
}

#[test]
fn login_plan_stores_the_issued_token() {
    let hash = bcrypt::hash("pw", 4).unwrap();
    let plan = auth::login_plan("pw", &Ok(vec![account_row(9, "m@x.com", &hash, 1)])).unwrap();
    assert!(plan.response.success);
    let token = plan.response.token.clone().unwrap();
    assert_eq!(plan.writes.len(), 2);
    assert_eq!(plan.writes[0].sql, auth::INSERT_SESSION_SQL);
    assert_eq!(plan.writes[0].params[1], SqlValue::Integer(9));
    assert_eq!(plan.writes[0].params[2], SqlValue::Text(token));
    assert_ne!(plan.writes[0].params[0], plan.writes[0].params[2]);
    assert_eq!(plan.writes[1].sql, auth::TOUCH_ACCOUNT_SQL);
    assert_eq!(plan.writes[1].params, vec![SqlValue::Integer(9)]);
    assert_eq!(plan.response.usuario.unwrap().id, 9);
}

#[test]
fn logout_and_queries_bind_the_token() {
    let st = auth::logout_statement("tok");
    assert_eq!(st.sql, "DELETE FROM sessoes WHERE token = ?1");
    assert_eq!(st.params, vec![text("tok")]);
    assert_eq!(auth::session_query("tok").params, vec![text("tok")]);
    assert_eq!(auth::current_user_query("tok").params, vec![text("tok")]);
    assert_eq!(auth::login_query("m@x.com").params, vec![text("m@x.com")]);
    assert_eq!(auth::password_hash_query(5).params, vec![SqlValue::Integer(5)]);
}

#[test]
fn change_password_passes_store_errors_on() {
    let e = AppError::Database("disk I/O error".to_string());
    assert_eq!(auth::change_password_plan(1, "a", "b", Err(e.clone())), Err(e));
    assert_eq!(
        auth::change_password_plan(1, "a", "b", Ok(vec![vec![SqlValue::Integer(3)]])),
        Err(AppError::Database("Invalid column type".to_string()))
    );
}

#[test]
fn change_password_with_right_password_rehashes() {
    let hash = bcrypt::hash("old", 4).unwrap();
    let writes = auth::change_password_plan(4, "old", "new", Ok(vec![vec![text(&hash)]])).unwrap();
    assert_eq!(writes.len(), 1);
    assert_eq!(writes[0].sql, auth::UPDATE_PASSWORD_SQL);
    assert_eq!(writes[0].params[1], SqlValue::Integer(4));
    match &writes[0].params[0] {
        SqlValue::Text(h) => {
            assert!(check_password("new", h));
            assert!(!check_password("old", h));
        },
        other => panic!("unexpected parameter {:?}", other),
    }
}

#[test]
fn seeding_skipped_when_bootstrap_exists() {
    let answer = Ok(vec![vec![SqlValue::Integer(1)]]);
    assert_eq!(database::bootstrap_accounts(&answer), 1);
    assert_eq!(database::seed_plan(&answer), Ok(vec![]));
    assert_eq!(database::bootstrap_accounts(&Err(AppError::Database("x".to_string()))), 0);
}

#[test]
fn seeding_inserts_administrator_and_organization() {
    let plan = database::seed_plan(&Ok(vec![vec![SqlValue::Integer(0)]])).unwrap();
    assert_eq!(plan.len(), 2);
    assert_eq!(plan[0].sql, database::INSERT_ACCOUNT_SQL);
    assert_eq!(plan[0].params[1], text("admin@aluforce.com.br"));
    match &plan[0].params[2] {
        SqlValue::Text(h) => assert!(check_password("admin123", h)),
        other => panic!("unexpected parameter {:?}", other),
    }
    assert_eq!(plan[1].sql, database::INSERT_ORGANIZATION_SQL);
    assert_eq!(plan[1].params, vec![text("ALUFORCE LTDA"), text("ALUFORCE"), text("00.000.000/0001-00")]);
}

#[test]
fn bootstrap_query_binds_reserved_email() {
    let st = database::bootstrap_count_statement();
    assert_eq!(st.sql, "SELECT COUNT(*) FROM usuarios WHERE email = ?1");
    assert_eq!(st.params, vec![text("admin@aluforce.com.br")]);
    assert!(database::pragma_statement().sql.contains("PRAGMA foreign_keys = ON;"));
}

#[test]
fn unreadable_document_is_a_serialization_error() {
    match aluforce::json::read_document("{not json") {
        Err(AppError::Serialization(m)) => assert!(!m.is_empty()),
        other => panic!("unexpected {:?}", other),
    }
    let v = aluforce::json::read_document("{\"a\": 1}").unwrap();
    assert_eq!(v["a"], serde_json::Value::from(1));
    assert_eq!(aluforce::json::document_or_empty("[").as_object().map(|m| m.len()), Some(0));
}

#[test]
fn session_plan_writes_expiry_a_day_later() {
    let u = auth::decode_account(&account_row(5, "m@x.com", "h", 1)).unwrap();
    let plan = auth::session_plan(u, 0, "tok".to_string(), "sid".to_string()).unwrap();
    assert_eq!(
        plan.writes[0].params,
        vec![text("sid"), SqlValue::Integer(5), text("tok"), text("1970-01-02 00:00:00")]
    );
    assert_eq!(plan.writes[1].params, vec![SqlValue::Integer(5)]);
    assert_eq!(plan.response.token.as_deref(), Some("tok"));
    assert_eq!(plan.response.usuario.unwrap().email, "m@x.com");
}

#[test]
fn session_plan_refuses_unwritable_expiry() {
    let last = 8_210_266_876_799 - auth::SESSION_TTL_SECONDS;
    let u = auth::decode_account(&account_row(5, "m@x.com", "h", 1)).unwrap();
    assert!(auth::session_plan(u.clone(), last, "t".to_string(), "s".to_string()).is_ok());
    match auth::session_plan(u.clone(), last + 1, "t".to_string(), "s".to_string()) {
        Err(AppError::Internal(_)) => {},
        other => panic!("unexpected {:?}", other.map(|p| p.response.success)),
    }
    assert!(auth::session_plan(u, i64::MAX, "t".to_string(), "s".to_string()).is_err());
}

#[test]
fn issued_token_is_hyphenated_uuid() {
    let hash = bcrypt::hash("pw", 4).unwrap();
    let plan = auth::login_plan("pw", &Ok(vec![account_row(9, "m@x.com", &hash, 1)])).unwrap();
    let token = plan.response.token.unwrap();
    assert_eq!(token.len(), 36);
    for (i, c) in token.chars().enumerate() {
        if i == 8 || i == 13 || i == 18 || i == 23 {
            assert_eq!(c, '-');
        } else {
            assert!(c.is_ascii_digit() || ('a'..='f').contains(&c));
        }
    }
}

#[test]
fn schema_names_the_store_tables() {
    let tables = schema::schema_tables();
    let names: Vec<&str> = tables.iter().map(|t| t.name).collect();
    assert_eq!(names[0], "usuarios");
    assert_eq!(names[15], "configuracoes");
    assert!(tables[schema::USUARIOS].columns.contains("email TEXT UNIQUE NOT NULL"));
    assert!(tables[schema::SESSOES].columns.contains("token TEXT UNIQUE NOT NULL"));
}
