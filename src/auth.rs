//! Session authority: credentials become bearer tokens with a fixed lifetime,
//! tokens become accounts while unexpired, and logout revokes them.
//!
//! Each operation is a statement handed to the store and a decision on what the
//! store answers. Expiry is judged against the store's own clock, which the
//! session queries read beside each stored expiry.

use vstd::prelude::*;
use vstd::string::*;
use crate::clock::{format_utc, now_seconds, utc_representable, utc_text};
use crate::crypto::{check_password, hash_password, is_hyphenated_uuid, password_accepted, random_identifier};
use crate::database::is_text;
use crate::error::AppError;
use crate::json::{document_or_empty, document_or_empty_of, empty_document, empty_mapping};
use crate::models::{projects, LoginResponse, Usuario, UsuarioPublico};
use crate::sql::{
    integer_column, optional_text_column, read_integer, read_optional_text, read_text, text_column,
    Row, SqlValue, Statement,
};
use crate::timestamp::{is_later, later_text};

verus! {

/// Lifetime of a session, in seconds.
pub const SESSION_TTL_SECONDS: i64 = 86400;

/// Looks an account up by email.
pub const FIND_ACCOUNT_SQL: &'static str =
    "SELECT id, nome, email, senha_hash, cargo, departamento, avatar, ativo, permissoes, ultimo_acesso, created_at, updated_at FROM usuarios WHERE email = ?1";

/// Stores a session: identifier, account, token, expiry.
pub const INSERT_SESSION_SQL: &'static str =
    "INSERT INTO sessoes (id, usuario_id, token, expires_at) VALUES (?1, ?2, ?3, ?4)";

/// Records an account's last access at the store's clock.
pub const TOUCH_ACCOUNT_SQL: &'static str =
    "UPDATE usuarios SET ultimo_acesso = datetime('now') WHERE id = ?1";

/// Removes every session holding a token.
pub const DELETE_SESSION_SQL: &'static str = "DELETE FROM sessoes WHERE token = ?1";

/// Reads the expiry of each session holding a token, beside the store's clock.
pub const SESSION_EXPIRY_SQL: &'static str =
    "SELECT expires_at, datetime('now') FROM sessoes WHERE token = ?1";

/// Reads the account of each session holding a token, with the session's
/// expiry and the store's clock.
pub const SESSION_ACCOUNT_SQL: &'static str =
    "SELECT u.id, u.nome, u.email, u.senha_hash, u.cargo, u.departamento, u.avatar, u.ativo, u.permissoes, u.ultimo_acesso, u.created_at, u.updated_at, s.expires_at, datetime('now') FROM usuarios u INNER JOIN sessoes s ON s.usuario_id = u.id WHERE s.token = ?1";

/// Reads an account's password hash.
pub const PASSWORD_HASH_SQL: &'static str = "SELECT senha_hash FROM usuarios WHERE id = ?1";

/// Replaces an account's password hash.
pub const UPDATE_PASSWORD_SQL: &'static str =
    "UPDATE usuarios SET senha_hash = ?1, updated_at = datetime('now') WHERE id = ?2";

/// The statements a successful login hands to the store, and the answer it
/// then gives.
#[derive(Debug, Clone)]
pub struct LoginPlan {
    pub writes: Vec<Statement>,
    pub response: LoginResponse,
}

// ----- accounts as rows -----

/// A row holds an account in the column order of the account queries.
pub open spec fn account_row(row: Seq<SqlValue>) -> bool {
    &&& integer_column(row, 0) is Some
    &&& text_column(row, 1) is Some
    &&& text_column(row, 2) is Some
    &&& text_column(row, 3) is Some
    &&& optional_text_column(row, 4) is Some
    &&& optional_text_column(row, 5) is Some
    &&& optional_text_column(row, 6) is Some
    &&& integer_column(row, 7) is Some
    &&& optional_text_column(row, 8) is Some
    &&& optional_text_column(row, 9) is Some
    &&& text_column(row, 10) is Some
    &&& text_column(row, 11) is Some
}

/// A row holds an account whose active flag is set.
pub open spec fn active_account_row(row: Seq<SqlValue>) -> bool {
    account_row(row) && integer_column(row, 7) == Some(1i64)
}

pub open spec fn optional_view(o: Option<String>) -> Option<Seq<char>> {
    match o {
        Some(s) => Some(s@),
        None => None,
    }
}

/// The permissions document of an account row: the document that column 8
/// holds, and the empty mapping where it is null or holds none.
pub open spec fn permissions_of(row: Seq<SqlValue>) -> serde_json::Value {
    match optional_text_column(row, 8) {
        Some(Some(t)) => document_or_empty_of(t),
        _ => empty_document(0),
    }
}

/// `u` holds the account that `row` holds.
pub open spec fn decoded_from(u: Usuario, row: Seq<SqlValue>) -> bool {
    &&& integer_column(row, 0) == Some(u.id)
    &&& text_column(row, 1) == Some(u.nome@)
    &&& text_column(row, 2) == Some(u.email@)
    &&& text_column(row, 3) == Some(u.senha_hash@)
    &&& optional_text_column(row, 4) == Some(optional_view(u.cargo))
    &&& optional_text_column(row, 5) == Some(optional_view(u.departamento))
    &&& optional_text_column(row, 6) == Some(optional_view(u.avatar))
    &&& u.ativo == (integer_column(row, 7) == Some(1i64))
    &&& u.permissoes == permissions_of(row)
    &&& optional_text_column(row, 9) == Some(optional_view(u.ultimo_acesso))
    &&& text_column(row, 10) == Some(u.created_at@)
    &&& text_column(row, 11) == Some(u.updated_at@)
}

/// The account that a row holds.
pub fn decode_account(row: &Row) -> (r: Option<Usuario>)
    ensures
        r is Some <==> account_row(row@),
        r matches Some(u) ==> decoded_from(u, row@),
{
    let id = match read_integer(row, 0) { Some(v) => v, None => return None };
    let nome = match read_text(row, 1) { Some(v) => v, None => return None };
    let email = match read_text(row, 2) { Some(v) => v, None => return None };
    let senha_hash = match read_text(row, 3) { Some(v) => v, None => return None };
    let cargo = match read_optional_text(row, 4) { Some(v) => v, None => return None };
    let departamento = match read_optional_text(row, 5) { Some(v) => v, None => return None };
    let avatar = match read_optional_text(row, 6) { Some(v) => v, None => return None };
    let ativo = match read_integer(row, 7) { Some(v) => v, None => return None };
    let permissoes_text = match read_optional_text(row, 8) { Some(v) => v, None => return None };
    let ultimo_acesso = match read_optional_text(row, 9) { Some(v) => v, None => return None };
    let created_at = match read_text(row, 10) { Some(v) => v, None => return None };
    let updated_at = match read_text(row, 11) { Some(v) => v, None => return None };
    let permissoes = match permissoes_text {
        Some(t) => document_or_empty(t.as_str()),
        None => empty_mapping(0),
    };
    Some(Usuario {
        id,
        nome,
        email,
        senha_hash,
        cargo,
        departamento,
        avatar,
        ativo: ativo == 1,
        permissoes,
        ultimo_acesso,
        created_at,
        updated_at,
    })
}

// ----- login -----

/// Position of the first row from `i` on that holds an active account.
pub open spec fn first_active_from(rows: Seq<Row>, i: int) -> Option<int>
    decreases rows.len() - i,
{
    if i < 0 || i >= rows.len() {
        None
    } else if active_account_row(rows[i]@) {
        Some(i)
    } else {
        first_active_from(rows, i + 1)
    }
}

/// The account a login finds in the store's answer: the first active one.
pub open spec fn login_account(answer: Result<Vec<Row>, AppError>) -> Option<Seq<SqlValue>> {
    match answer {
        Ok(rows) => match first_active_from(rows@, 0) {
            Some(i) => Some(rows@[i]@),
            None => None,
        },
        Err(_) => None,
    }
}

/// The first active account among the rows.
fn find_active_account(rows: &Vec<Row>) -> (r: Option<Usuario>)
    ensures
        first_active_from(rows@, 0) is None ==> r is None,
        first_active_from(rows@, 0) matches Some(i) ==> (r matches Some(u) && decoded_from(u, rows@[i]@)),
{
    let mut i: usize = 0;
    while i < rows.len()
        invariant
            i <= rows@.len(),
            first_active_from(rows@, 0) == first_active_from(rows@, i as int),
        decreases rows@.len() - i,
    {
        match decode_account(&rows[i]) {
            Some(u) => {
                if u.ativo {
                    return Some(u);
                }
            },
            None => {},
        }
        i = i + 1;
    }
    None
}

/// The query a login starts with.
pub fn login_query(email: &str) -> (r: Statement)
    ensures
        r.sql@ == FIND_ACCOUNT_SQL@,
        r.params@.len() == 1,
        is_text(r.params@[0], email@),
{
    let mut params: Vec<SqlValue> = Vec::new();
    params.push(SqlValue::Text(email.to_string()));
    Statement { sql: FIND_ACCOUNT_SQL.to_string(), params }
}

/// A failed login: no token, no account, and the reason.
pub fn login_failure(message: &str) -> (r: LoginPlan)
    ensures
        r.writes@.len() == 0,
        !r.response.success,
        r.response.token is None,
        r.response.usuario is None,
        r.response.message matches Some(m) && m@ == message@,
{
    LoginPlan {
        writes: Vec::new(),
        response: LoginResponse {
            success: false,
            token: None,
            usuario: None,
            message: Some(message.to_string()),
        },
    }
}

/// The session record that an insert statement stores: identifier, account,
/// token and expiry, where the statement is a session insert.
pub open spec fn stores_session(
    st: Statement,
    id: Seq<char>,
    account_id: i64,
    token: Seq<char>,
    expires_at: Seq<char>,
) -> bool {
    &&& st.sql@ == INSERT_SESSION_SQL@
    &&& st.params@.len() == 4
    &&& is_text(st.params@[0], id)
    &&& st.params@[1] == SqlValue::Integer(account_id)
    &&& is_text(st.params@[2], token)
    &&& is_text(st.params@[3], expires_at)
}

/// A successful login for `account`: the session insert and the last-access
/// update, and an answer carrying `token` and the account's outward projection.
pub fn issue_session(account: Usuario, token: String, session_id: String, expires_at: String) -> (r: LoginPlan)
    ensures
        r.writes@.len() == 2,
        stores_session(r.writes@[0], session_id@, account.id, token@, expires_at@),
        r.writes@[1].sql@ == TOUCH_ACCOUNT_SQL@,
        r.writes@[1].params@ == seq![SqlValue::Integer(account.id)],
        r.response.success,
        r.response.token == Some(token),
        r.response.usuario matches Some(p) && projects(p, account),
        r.response.message is None,
{
    let id = account.id;
    let mut insert: Vec<SqlValue> = Vec::new();
    insert.push(SqlValue::Text(session_id));
    insert.push(SqlValue::Integer(id));
    insert.push(SqlValue::Text(token.clone()));
    insert.push(SqlValue::Text(expires_at));
    let mut touch: Vec<SqlValue> = Vec::new();
    touch.push(SqlValue::Integer(id));
    proof {
        assert(touch@ =~= seq![SqlValue::Integer(id)]);
    }
    let mut writes: Vec<Statement> = Vec::new();
    writes.push(Statement { sql: INSERT_SESSION_SQL.to_string(), params: insert });
    writes.push(Statement { sql: TOUCH_ACCOUNT_SQL.to_string(), params: touch });
    LoginPlan {
        writes,
        response: LoginResponse {
            success: true,
            token: Some(token),
            usuario: Some(UsuarioPublico::from_account(account)),
            message: None,
        },
    }
}

/// A login that is refused with `message`: nothing is written, and the
/// answer carries no token and no account.
pub open spec fn refused(p: LoginPlan, message: Seq<char>) -> bool {
    &&& p.writes@.len() == 0
    &&& !p.response.success
    &&& p.response.token is None
    &&& p.response.usuario is None
    &&& optional_view(p.response.message) == Some(message)
}

/// A login that issues a session for the account in `row`: the answer carries
/// a token and the account's projection, the first write stores a session for
/// that token and account expiring `SESSION_TTL_SECONDS` after some reading of
/// the clock, and the second records the account's last access.
pub open spec fn issued(p: LoginPlan, row: Seq<SqlValue>) -> bool {
    &&& p.response.success
    &&& p.response.message is None
    &&& p.response.token is Some
    &&& p.response.usuario is Some
    &&& exists|u: Usuario| decoded_from(u, row) && #[trigger] projects(p.response.usuario->0, u)
    &&& p.writes@.len() == 2
    &&& exists|id: Seq<char>, now: int| #[trigger] stores_session(p.writes@[0], id,
        integer_column(row, 0)->0, p.response.token->0@, utc_text(now + SESSION_TTL_SECONDS))
    &&& p.writes@[1].sql@ == TOUCH_ACCOUNT_SQL@
    &&& p.writes@[1].params@ == seq![SqlValue::Integer(integer_column(row, 0)->0)]
}

/// The session a login issues for `account` at the clock reading `now`:
/// the session insert with an expiry `SESSION_TTL_SECONDS` later and the
/// last-access update, answered with `token` and the account's projection.
/// It succeeds exactly when that expiry is an instant `chrono` can write, and
/// is an internal error otherwise.
pub fn session_plan(account: Usuario, now: i64, token: String, session_id: String) -> (r: Result<LoginPlan, AppError>)
    ensures
        r is Ok <==> utc_representable(now + SESSION_TTL_SECONDS),
        r is Err ==> r->Err_0 is Internal,
        r matches Ok(p) ==> {
            &&& p.writes@.len() == 2
            &&& stores_session(p.writes@[0], session_id@, account.id, token@, utc_text(now + SESSION_TTL_SECONDS))
            &&& p.writes@[1].sql@ == TOUCH_ACCOUNT_SQL@
            &&& p.writes@[1].params@ == seq![SqlValue::Integer(account.id)]
            &&& p.response.success
            &&& p.response.token == Some(token)
            &&& p.response.usuario is Some
            &&& projects(p.response.usuario->0, account)
            &&& p.response.message is None
        },
{
    if now > i64::MAX - SESSION_TTL_SECONDS {
        return Err(AppError::Internal("Relógio fora do intervalo suportado".to_string()));
    }
    let expires_at = match format_utc(now + SESSION_TTL_SECONDS) {
        Some(s) => s,
        None => return Err(AppError::Internal("Relógio fora do intervalo suportado".to_string())),
    };
    Ok(issue_session(account, token, session_id, expires_at))
}

/// A login, given the password presented and the store's answer to
/// `login_query`. Without an active account the answer is "Usuário não
/// encontrado"; with one whose hash the password does not pass, "Senha
/// incorreta"; neither writes anything. Otherwise a fresh random token is
/// issued, stored with an expiry `SESSION_TTL_SECONDS` after the current
/// time, and returned with the account. Fails only where the clock reads a
/// time whose expiry cannot be written.
pub fn login_plan(password: &str, answer: &Result<Vec<Row>, AppError>) -> (r: Result<LoginPlan, AppError>)
    ensures
        login_account(*answer) is None ==> (r is Ok && refused(r->Ok_0, "Usuário não encontrado"@)),
        login_account(*answer) is Some
            && !password_accepted(password@, text_column(login_account(*answer)->0, 3)->0)
            ==> (r is Ok && refused(r->Ok_0, "Senha incorreta"@)),
        login_account(*answer) is Some
            && password_accepted(password@, text_column(login_account(*answer)->0, 3)->0)
            ==> match r {
                Ok(p) => issued(p, login_account(*answer)->0) && is_hyphenated_uuid(p.response.token->0@),
                Err(e) => e is Internal,
            },
{
    let rows = match answer {
        Ok(rows) => rows,
        Err(_) => return Ok(login_failure("Usuário não encontrado")),
    };
    let account = match find_active_account(rows) {
        Some(u) => u,
        None => return Ok(login_failure("Usuário não encontrado")),
    };
    if !check_password(password, account.senha_hash.as_str()) {
        return Ok(login_failure("Senha incorreta"));
    }
    let now = now_seconds();
    let token = random_identifier();
    let session_id = random_identifier();
    let ghost row = rows@[first_active_from(rows@, 0)->0]@;
    let ghost u = account;
    let plan = session_plan(account, now, token, session_id);
    proof {
        if plan is Ok {
            let p = plan->Ok_0;
            assert(projects(p.response.usuario->0, u));
            assert(stores_session(p.writes@[0], session_id@, integer_column(row, 0)->0,
                p.response.token->0@, utc_text(now + SESSION_TTL_SECONDS)));
        }
    }
    plan
}

// ----- logout -----

/// The statement that revokes every session holding `token`. Running it on a
/// store that holds none is no error: it removes nothing.
pub fn logout_statement(token: &str) -> (r: Statement)
    ensures
        r.sql@ == DELETE_SESSION_SQL@,
        r.params@.len() == 1,
        is_text(r.params@[0], token@),
{
    let mut params: Vec<SqlValue> = Vec::new();
    params.push(SqlValue::Text(token.to_string()));
    Statement { sql: DELETE_SESSION_SQL.to_string(), params }
}

// ----- session validation -----

/// The query that reads, for each session holding `token`, its expiry beside
/// the store's clock.
pub fn session_query(token: &str) -> (r: Statement)
    ensures
        r.sql@ == SESSION_EXPIRY_SQL@,
        r.params@.len() == 1,
        is_text(r.params@[0], token@),
{
    let mut params: Vec<SqlValue> = Vec::new();
    params.push(SqlValue::Text(token.to_string()));
    Statement { sql: SESSION_EXPIRY_SQL.to_string(), params }
}

/// A row of the expiry query whose expiry is after the clock read beside it.
pub open spec fn unexpired_row(row: Seq<SqlValue>) -> bool {
    &&& text_column(row, 0) is Some
    &&& text_column(row, 1) is Some
    &&& later_text(text_column(row, 0)->0, text_column(row, 1)->0)
}

/// The answer to the expiry query shows an unexpired session.
pub open spec fn shows_valid_session(answer: Result<Vec<Row>, AppError>) -> bool {
    match answer {
        Ok(rows) => exists|i: int| 0 <= i < rows@.len() && #[trigger] unexpired_row(rows@[i]@),
        Err(_) => false,
    }
}

/// Whether the store's answer to `session_query` shows a session that has not
/// expired. An answer that is an error shows none.
pub fn validate_session(answer: &Result<Vec<Row>, AppError>) -> (r: bool)
    ensures
        r == shows_valid_session(*answer),
{
    let rows = match answer {
        Ok(rows) => rows,
        Err(_) => return false,
    };
    let mut i: usize = 0;
    while i < rows.len()
        invariant
            i <= rows@.len(),
            *answer == Ok::<Vec<Row>, AppError>(*rows),
            forall|k: int| 0 <= k < i ==> !#[trigger] unexpired_row(rows@[k]@),
        decreases rows@.len() - i,
    {
        let row = &rows[i];
        match (read_text(row, 0), read_text(row, 1)) {
            (Some(e), Some(c)) => {
                if is_later(e.as_str(), c.as_str()) {
                    proof {
                        assert(unexpired_row(rows@[i as int]@));
                        assert(answer->Ok_0 == *rows);
                    }
                    return true;
                }
            },
            _ => {},
        }
        i = i + 1;
    }
    false
}

// ----- current account -----

/// The query that reads the account of each session holding `token`.
pub fn current_user_query(token: &str) -> (r: Statement)
    ensures
        r.sql@ == SESSION_ACCOUNT_SQL@,
        r.params@.len() == 1,
        is_text(r.params@[0], token@),
{
    let mut params: Vec<SqlValue> = Vec::new();
    params.push(SqlValue::Text(token.to_string()));
    Statement { sql: SESSION_ACCOUNT_SQL.to_string(), params }
}

/// A row of the session-account query for an active account whose session
/// expires after the clock read beside it.
pub open spec fn current_row(row: Seq<SqlValue>) -> bool {
    &&& active_account_row(row)
    &&& text_column(row, 12) is Some
    &&& text_column(row, 13) is Some
    &&& later_text(text_column(row, 12)->0, text_column(row, 13)->0)
}

/// Position of the first row from `i` on that is current.
pub open spec fn first_current_from(rows: Seq<Row>, i: int) -> Option<int>
    decreases rows.len() - i,
{
    if i < 0 || i >= rows.len() {
        None
    } else if current_row(rows[i]@) {
        Some(i)
    } else {
        first_current_from(rows, i + 1)
    }
}

/// The row a current-account lookup answers with.
pub open spec fn current_account_row(answer: Result<Vec<Row>, AppError>) -> Option<Seq<SqlValue>> {
    match answer {
        Ok(rows) => match first_current_from(rows@, 0) {
            Some(i) => Some(rows@[i]@),
            None => None,
        },
        Err(_) => None,
    }
}

/// The account behind a token, given the store's answer to
/// `current_user_query`: the outward projection of the first active account
/// whose session has not expired. A missing token, an expired session, an
/// inactive account and an error all give `None`.
pub fn current_user(answer: &Result<Vec<Row>, AppError>) -> (r: Option<UsuarioPublico>)
    ensures
        current_account_row(*answer) is None <==> r is None,
        current_account_row(*answer) matches Some(row) ==> (r matches Some(p)
            && exists|u: Usuario| decoded_from(u, row) && #[trigger] projects(p, u)),
{
    let rows = match answer {
        Ok(rows) => rows,
        Err(_) => return None,
    };
    let mut i: usize = 0;
    while i < rows.len()
        invariant
            i <= rows@.len(),
            *answer == Ok::<Vec<Row>, AppError>(*rows),
            first_current_from(rows@, 0) == first_current_from(rows@, i as int),
        decreases rows@.len() - i,
    {
        let row = &rows[i];
        match decode_account(row) {
            Some(u) => {
                if u.ativo {
                    match (read_text(row, 12), read_text(row, 13)) {
                        (Some(e), Some(c)) => {
                            if is_later(e.as_str(), c.as_str()) {
                                let ghost account = u;
                                let p = UsuarioPublico::from_account(u);
                                proof {
                                    assert(current_row(rows@[i as int]@));
                                    assert(first_current_from(rows@, i as int) == Some(i as int));
                                    assert(projects(p, account));
                                }
                                return Some(p);
                            }
                        },
                        _ => {},
                    }
                }
            },
            None => {},
        }
        i = i + 1;
    }
    None
}

// ----- password change -----

/// The query that reads an account's password hash.
pub fn password_hash_query(user_id: i64) -> (r: Statement)
    ensures
        r.sql@ == PASSWORD_HASH_SQL@,
        r.params@ == seq![SqlValue::Integer(user_id)],
{
    let mut params: Vec<SqlValue> = Vec::new();
    params.push(SqlValue::Integer(user_id));
    proof {
        assert(params@ =~= seq![SqlValue::Integer(user_id)]);
    }
    Statement { sql: PASSWORD_HASH_SQL.to_string(), params }
}

/// The stored hash in the store's answer to `password_hash_query`, if it
/// holds one.
pub open spec fn answered_hash(answer: Result<Vec<Row>, AppError>) -> Option<Seq<char>> {
    match answer {
        Ok(rows) => if rows@.len() > 0 { text_column(rows@[0]@, 0) } else { None },
        Err(_) => None,
    }
}

/// The statement that sets an account's password hash to `new_hash`.
pub fn password_update_statement(user_id: i64, new_hash: String) -> (r: Statement)
    ensures
        r.sql@ == UPDATE_PASSWORD_SQL@,
        r.params@ == seq![SqlValue::Text(new_hash), SqlValue::Integer(user_id)],
{
    let mut params: Vec<SqlValue> = Vec::new();
    params.push(SqlValue::Text(new_hash));
    params.push(SqlValue::Integer(user_id));
    proof {
        assert(params@ =~= seq![SqlValue::Text(new_hash), SqlValue::Integer(user_id)]);
    }
    Statement { sql: UPDATE_PASSWORD_SQL.to_string(), params }
}

/// The single write of a password change: the account's hash becomes one that
/// `new_password` passes.
pub open spec fn replaces_hash(w: Vec<Statement>, user_id: i64, new_password: Seq<char>) -> bool {
    &&& w@.len() == 1
    &&& w@[0].sql@ == UPDATE_PASSWORD_SQL@
    &&& w@[0].params@.len() == 2
    &&& w@[0].params@[0] is Text
    &&& password_accepted(new_password, w@[0].params@[0]->Text_0@)
    &&& w@[0].params@[1] == SqlValue::Integer(user_id)
}

/// A password change, given the store's answer to `password_hash_query`.
/// An error of the store is passed on, and an answer without a hash is a
/// store error. Where the current password does not pass the stored hash the
/// change fails with an authentication error and writes nothing, so the
/// stored hash stays. Otherwise the one write replaces the hash with a fresh
/// one that the new password passes; it fails only where hashing fails.
/// Sessions already issued stay valid.
pub fn change_password_plan(
    user_id: i64,
    current: &str,
    new_password: &str,
    answer: Result<Vec<Row>, AppError>,
) -> (r: Result<Vec<Statement>, AppError>)
    ensures
        answer is Err ==> (r is Err && r->Err_0 == answer->Err_0),
        answer is Ok && answered_hash(answer) is None ==> r matches Err(AppError::Database(_)),
        answered_hash(answer) is Some && !password_accepted(current@, answered_hash(answer)->0)
            ==> (r matches Err(AppError::Authentication(m)) && m@ == "Senha atual incorreta"@),
        answered_hash(answer) is Some && password_accepted(current@, answered_hash(answer)->0)
            ==> match r {
            Ok(w) => replaces_hash(w, user_id, new_password@),
            Err(e) => e is Internal,
        },
{
    let rows = match answer {
        Ok(rows) => rows,
        Err(e) => return Err(e),
    };
    if rows.len() == 0 {
        return Err(AppError::Database("Query returned no rows".to_string()));
    }
    let stored = match read_text(&rows[0], 0) {
        Some(h) => h,
        None => return Err(AppError::Database("Invalid column type".to_string())),
    };
    if !check_password(current, stored.as_str()) {
        return Err(AppError::Authentication("Senha atual incorreta".to_string()));
    }
    let new_hash = match hash_password(new_password) {
        Ok(h) => h,
        Err(e) => return Err(AppError::Internal(e.to_string())),
    };
    let mut writes: Vec<Statement> = Vec::new();
    writes.push(password_update_statement(user_id, new_hash));
    Ok(writes)
}

} // verus!
