//! Store lifecycle: the configuration and schema statements run at start-up,
//! the exactly-once seeding of bootstrap records, and the check made before a
//! backup is restored over the live store.

use vstd::prelude::*;
use vstd::string::*;
use crate::crypto::{hash_password, password_accepted};
use crate::error::AppError;
use crate::schema::{
    create_index_sql, create_table_sql, begins_create_if_absent, references_earlier, schema_index_list,
    schema_indexes, schema_statements, schema_table_list, schema_tables, INDEX_COUNT, TABLE_COUNT,
};
use crate::sql::{integer_column, plain_statement, Row, SqlValue, Statement};

verus! {

/// Name of the store file inside the installation's data directory.
pub const DATABASE_FILE_NAME: &'static str = "aluforce.db";

/// Login of the bootstrap administrator.
pub const BOOTSTRAP_EMAIL: &'static str = "admin@aluforce.com.br";

/// Initial password of the bootstrap administrator.
pub const BOOTSTRAP_PASSWORD: &'static str = "admin123";

/// Durability and performance settings applied each time the store is opened
/// for initialization.
pub const PRAGMAS: &'static str = "PRAGMA journal_mode = WAL;
PRAGMA synchronous = NORMAL;
PRAGMA cache_size = 10000;
PRAGMA temp_store = MEMORY;
PRAGMA foreign_keys = ON;";

/// Counts the accounts that hold the bootstrap email.
pub const COUNT_BOOTSTRAP_SQL: &'static str = "SELECT COUNT(*) FROM usuarios WHERE email = ?1";

/// Inserts an account: name, email, hash, role, department, permissions.
pub const INSERT_ACCOUNT_SQL: &'static str =
    "INSERT INTO usuarios (nome, email, senha_hash, cargo, departamento, permissoes) VALUES (?1, ?2, ?3, ?4, ?5, ?6)";

/// Inserts the organization record: legal name, trade name, registry number.
pub const INSERT_ORGANIZATION_SQL: &'static str =
    "INSERT INTO empresas (razao_social, nome_fantasia, cnpj) VALUES (?1, ?2, ?3)";

/// A parameter that holds exactly the text `s`.
pub open spec fn is_text(v: SqlValue, s: Seq<char>) -> bool {
    v matches SqlValue::Text(t) && t@ == s
}

/// The statement applying the store's settings.
pub fn pragma_statement() -> (r: Statement)
    ensures
        r.sql@ == PRAGMAS@,
        r.params@.len() == 0,
{
    plain_statement(PRAGMAS)
}

/// Every table and index of the schema, tables in dependency order, each
/// statement creating its object only where it is absent: the statement for
/// table `i` of `schema_table_list`, then the one for index `k` of
/// `schema_index_list`, each exactly as the create statements render them.
pub fn schema() -> (r: Vec<Statement>)
    ensures
        r@.len() == TABLE_COUNT + INDEX_COUNT,
        references_earlier(schema_table_list()),
        forall|i: int| 0 <= i < TABLE_COUNT ==>
            #[trigger] r@[i].sql@ == create_table_sql(schema_table_list(), i),
        forall|k: int| 0 <= k < INDEX_COUNT ==>
            #[trigger] r@[TABLE_COUNT + k].sql@ == create_index_sql(schema_table_list(), schema_index_list()[k]),
        forall|i: int| 0 <= i < r@.len() ==> #[trigger] begins_create_if_absent(r@[i].sql@),
        forall|i: int| 0 <= i < r@.len() ==> #[trigger] r@[i].params@.len() == 0,
{
    let tables = schema_tables();
    let indexes = schema_indexes();
    schema_statements(&tables, &indexes)
}

/// The query for the number of accounts holding the bootstrap email.
pub fn bootstrap_count_statement() -> (r: Statement)
    ensures
        r.sql@ == COUNT_BOOTSTRAP_SQL@,
        r.params@.len() == 1,
        is_text(r.params@[0], BOOTSTRAP_EMAIL@),
{
    let mut params: Vec<SqlValue> = Vec::new();
    params.push(SqlValue::Text(BOOTSTRAP_EMAIL.to_string()));
    Statement { sql: COUNT_BOOTSTRAP_SQL.to_string(), params }
}

/// The count that the store answered to the bootstrap query: the integer in
/// the first column of the first row, and zero where the answer is an error or
/// holds no such integer.
pub open spec fn answered_count(answer: Result<Vec<Row>, AppError>) -> int {
    match answer {
        Ok(rows) => if rows@.len() > 0 {
            match integer_column(rows@[0]@, 0) {
                Some(n) => n as int,
                None => 0,
            }
        } else {
            0
        },
        Err(_) => 0,
    }
}

/// Reads the store's answer to the bootstrap query.
pub fn bootstrap_accounts(answer: &Result<Vec<Row>, AppError>) -> (r: i64)
    ensures
        r as int == answered_count(*answer),
{
    match answer {
        Ok(rows) => {
            if rows.len() > 0 {
                match crate::sql::read_integer(&rows[0], 0) {
                    Some(n) => n,
                    None => 0,
                }
            } else {
                0
            }
        },
        Err(_) => 0,
    }
}

/// Whether initialization seeds, given how many bootstrap accounts it found.
pub open spec fn seeds(existing: int) -> bool {
    existing == 0
}

/// The two bootstrap inserts: the administrator account (name, email, the
/// hash `admin_hash`, role, department, permissions), then the default
/// organization (legal name, trade name, registry number).
pub open spec fn bootstrap_inserts(s: Seq<Statement>, admin_hash: Seq<char>) -> bool {
    &&& s.len() == 2
    &&& s[0].sql@ == INSERT_ACCOUNT_SQL@
    &&& s[0].params@.len() == 6
    &&& is_text(s[0].params@[0], "Administrador"@)
    &&& is_text(s[0].params@[1], BOOTSTRAP_EMAIL@)
    &&& is_text(s[0].params@[2], admin_hash)
    &&& is_text(s[0].params@[3], "Administrador"@)
    &&& is_text(s[0].params@[4], "TI"@)
    &&& is_text(s[0].params@[5], "{\"admin\": true, \"all\": true}"@)
    &&& s[1].sql@ == INSERT_ORGANIZATION_SQL@
    &&& s[1].params@.len() == 3
    &&& is_text(s[1].params@[0], "ALUFORCE LTDA"@)
    &&& is_text(s[1].params@[1], "ALUFORCE"@)
    &&& is_text(s[1].params@[2], "00.000.000/0001-00"@)
}

/// The insert statements of the bootstrap records, with `admin_hash` as the
/// administrator's password hash.
pub fn seed_statements(admin_hash: String) -> (r: Vec<Statement>)
    ensures
        bootstrap_inserts(r@, admin_hash@),
{
    let mut account: Vec<SqlValue> = Vec::new();
    account.push(SqlValue::Text("Administrador".to_string()));
    account.push(SqlValue::Text(BOOTSTRAP_EMAIL.to_string()));
    account.push(SqlValue::Text(admin_hash));
    account.push(SqlValue::Text("Administrador".to_string()));
    account.push(SqlValue::Text("TI".to_string()));
    account.push(SqlValue::Text("{\"admin\": true, \"all\": true}".to_string()));
    let mut organization: Vec<SqlValue> = Vec::new();
    organization.push(SqlValue::Text("ALUFORCE LTDA".to_string()));
    organization.push(SqlValue::Text("ALUFORCE".to_string()));
    organization.push(SqlValue::Text("00.000.000/0001-00".to_string()));
    let mut out: Vec<Statement> = Vec::new();
    out.push(Statement { sql: INSERT_ACCOUNT_SQL.to_string(), params: account });
    out.push(Statement { sql: INSERT_ORGANIZATION_SQL.to_string(), params: organization });
    out
}

/// The seeding step of initialization, given the store's answer to the
/// bootstrap query: nothing where a bootstrap account exists, else the two
/// bootstrap inserts, the administrator's hash being one that the bootstrap
/// password passes. Fails only where hashing fails.
pub fn seed_plan(answer: &Result<Vec<Row>, AppError>) -> (r: Result<Vec<Statement>, AppError>)
    ensures
        !seeds(answered_count(*answer)) ==> (r matches Ok(s) && s@.len() == 0),
        r is Err ==> seeds(answered_count(*answer)) && r matches Err(AppError::Internal(_)),
        seeds(answered_count(*answer)) && r is Ok ==> exists|h: Seq<char>|
            #[trigger] bootstrap_inserts(r->Ok_0@, h) && password_accepted(BOOTSTRAP_PASSWORD@, h),
{
    let existing = bootstrap_accounts(answer);
    if existing != 0 {
        return Ok(Vec::new());
    }
    match hash_password(BOOTSTRAP_PASSWORD) {
        Ok(h) => {
            let ghost hv = h@;
            let s = seed_statements(h);
            let r: Result<Vec<Statement>, AppError> = Ok(s);
            assert(bootstrap_inserts(r->Ok_0@, hv) && password_accepted(BOOTSTRAP_PASSWORD@, hv));
            r
        },
        Err(e) => Err(AppError::Internal(e.to_string())),
    }
}

/// The bootstrap accounts after `runs` initializations of a store that held
/// `existing` of them, each inserting one where it finds none.
pub open spec fn bootstrap_after(existing: int, runs: nat) -> int
    decreases runs,
{
    if runs == 0 {
        existing
    } else {
        let found = bootstrap_after(existing, (runs - 1) as nat);
        if seeds(found) { found + 1 } else { found }
    }
}

/// Initialization may be repeated: on an empty store any number of runs leaves
/// exactly one bootstrap account (and one organization record, inserted
/// beside it), and on a seeded store no run inserts another.
pub proof fn lemma_initialization_repeatable(existing: int, runs: nat)
    requires
        existing >= 0,
        runs >= 1,
    ensures
        existing == 0 ==> bootstrap_after(existing, runs) == 1,
        existing > 0 ==> bootstrap_after(existing, runs) == existing,
    decreases runs,
{
    reveal_with_fuel(bootstrap_after, 2);
    if runs > 1 {
        lemma_initialization_repeatable(existing, (runs - 1) as nat);
    }
}

/// The check made before a backup is copied over the live store: the backup
/// must exist, and the live store is left alone where it does not.
pub fn restore_check(backup_exists: bool) -> (r: Result<(), AppError>)
    ensures
        r is Ok <==> backup_exists,
        !backup_exists ==> (r matches Err(AppError::NotFound(m)) && m@ == "Arquivo de backup não encontrado"@),
{
    if backup_exists {
        Ok(())
    } else {
        Err(AppError::NotFound("Arquivo de backup não encontrado".to_string()))
    }
}

} // verus!
