//! The sessions table as a sequence of records, what each session statement of
//! this library does to it, and the laws of issue, expiry and revocation that
//! follow for the answers the store gives to the expiry and account queries.

use vstd::prelude::*;
use crate::auth::{
    current_account_row, current_row, first_current_from, issued, shows_valid_session, stores_session,
    unexpired_row, LoginPlan, SESSION_TTL_SECONDS,
};
use crate::clock::utc_text;
use crate::error::AppError;
use crate::sql::{integer_column, text_column, Row, SqlValue};
use crate::timestamp::later_text;

verus! {

/// A session as the sessions table holds it.
#[derive(Debug, Clone)]
pub struct SessionRecord {
    pub id: String,
    pub account_id: i64,
    pub token: String,
    pub expires_at: String,
}

/// `row` is the expiry query's row for a session expiring at `expires_at`,
/// read at `clock`.
pub open spec fn expiry_row(row: Seq<SqlValue>, expires_at: Seq<char>, clock: Seq<char>) -> bool {
    text_column(row, 0) == Some(expires_at) && text_column(row, 1) == Some(clock)
}

/// `rows` is an answer to the expiry query for `token` on `table`, read at
/// `clock`: one row for each session holding the token, and no other.
pub open spec fn answers_expiry_query(
    rows: Seq<Row>,
    table: Seq<SessionRecord>,
    token: Seq<char>,
    clock: Seq<char>,
) -> bool {
    &&& forall|i: int| #![trigger rows[i]] 0 <= i < rows.len() ==> exists|j: int|
        0 <= j < table.len() && table[j].token@ == token
            && #[trigger] expiry_row(rows[i]@, table[j].expires_at@, clock)
    &&& forall|j: int| 0 <= j < table.len() && #[trigger] table[j].token@ == token ==> exists|i: int|
        0 <= i < rows.len() && #[trigger] expiry_row(rows[i]@, table[j].expires_at@, clock)
}

/// The table after the logout statement for `token`: every session holding
/// it removed, the others kept in order.
pub open spec fn without_token(table: Seq<SessionRecord>, token: Seq<char>) -> Seq<SessionRecord>
    decreases table.len(),
{
    if table.len() == 0 {
        table
    } else {
        let rest = without_token(table.drop_last(), token);
        if table.last().token@ == token { rest } else { rest.push(table.last()) }
    }
}

proof fn lemma_without_token_holds_none(table: Seq<SessionRecord>, token: Seq<char>)
    ensures
        forall|j: int| 0 <= j < without_token(table, token).len()
            ==> #[trigger] without_token(table, token)[j].token@ != token,
    decreases table.len(),
{
    if table.len() > 0 {
        lemma_without_token_holds_none(table.drop_last(), token);
        let rest = without_token(table.drop_last(), token);
        if table.last().token@ != token {
            let grown = rest.push(table.last());
            assert forall|j: int| 0 <= j < grown.len() implies #[trigger] grown[j].token@ != token by {
                if j < rest.len() {
                    assert(grown[j] == rest[j]);
                }
            }
        }
    }
}

proof fn lemma_without_token_unchanged(table: Seq<SessionRecord>, token: Seq<char>)
    requires
        forall|j: int| 0 <= j < table.len() ==> #[trigger] table[j].token@ != token,
    ensures
        without_token(table, token) == table,
    decreases table.len(),
{
    if table.len() > 0 {
        lemma_without_token_unchanged(table.drop_last(), token);
        assert(table.drop_last().push(table.last()) =~= table);
    }
}

/// Issue then validate: a successful login returns the token of the session
/// its first write stores, and once that session is in the table, an answer to
/// the expiry query for the token, read at any clock before the session's
/// expiry, shows a valid session.
pub proof fn lemma_issued_session_validates(
    plan: LoginPlan,
    account: Seq<SqlValue>,
    table: Seq<SessionRecord>,
    stored: SessionRecord,
    clock: Seq<char>,
    rows: Vec<Row>,
)
    requires
        issued(plan, account),
        stores_session(plan.writes@[0], stored.id@, stored.account_id, stored.token@, stored.expires_at@),
        later_text(stored.expires_at@, clock),
        answers_expiry_query(rows@, table.push(stored), stored.token@, clock),
    ensures
        plan.response.token->0@ == stored.token@,
        shows_valid_session(Ok::<Vec<Row>, AppError>(rows)),
{
    let (id, now) = choose|id: Seq<char>, now: int| #[trigger] stores_session(plan.writes@[0], id,
        integer_column(account, 0)->0, plan.response.token->0@, utc_text(now + SESSION_TTL_SECONDS));
    let after = table.push(stored);
    let j = table.len() as int;
    assert(after[j] == stored);
    assert(after[j].token@ == stored.token@);
    let i = choose|i: int| 0 <= i < rows@.len() && #[trigger] expiry_row(rows@[i]@, after[j].expires_at@, clock);
    assert(unexpired_row(rows@[i]@));
    let answer = Ok::<Vec<Row>, AppError>(rows);
    assert(answer->Ok_0 == rows);
    assert(exists|k: int| 0 <= k < rows@.len() && #[trigger] unexpired_row(rows@[k]@));
}

/// Expiry: where every session holding `token` expires no later than the
/// clock, the expiry query's answer shows no valid session, though the rows
/// are still stored.
pub proof fn lemma_expired_session_rejected(
    table: Seq<SessionRecord>,
    token: Seq<char>,
    clock: Seq<char>,
    rows: Vec<Row>,
)
    requires
        exists|j: int| 0 <= j < table.len() && #[trigger] table[j].token@ == token,
        forall|j: int| 0 <= j < table.len() && #[trigger] table[j].token@ == token
            ==> !later_text(table[j].expires_at@, clock),
        answers_expiry_query(rows@, table, token, clock),
    ensures
        !shows_valid_session(Ok::<Vec<Row>, AppError>(rows)),
{
    assert forall|i: int| 0 <= i < rows@.len() implies !#[trigger] unexpired_row(rows@[i]@) by {
        let j = choose|j: int| 0 <= j < table.len() && table[j].token@ == token
            && #[trigger] expiry_row(rows@[i]@, table[j].expires_at@, clock);
    }
}

/// Expiry for the account lookup: where no row of the session-account answer
/// carries an expiry after the clock read beside it, no account is returned.
pub proof fn lemma_expired_session_has_no_account(rows: Vec<Row>)
    requires
        forall|i: int| 0 <= i < rows@.len() ==>
            !later_text(#[trigger] text_column(rows@[i]@, 12)->0, text_column(rows@[i]@, 13)->0),
    ensures
        current_account_row(Ok::<Vec<Row>, AppError>(rows)) is None,
{
    lemma_no_current_from(rows@, 0);
}

proof fn lemma_no_current_from(rows: Seq<Row>, k: int)
    requires
        0 <= k,
        forall|i: int| 0 <= i < rows.len() ==>
            !later_text(#[trigger] text_column(rows[i]@, 12)->0, text_column(rows[i]@, 13)->0),
    ensures
        first_current_from(rows, k) is None,
    decreases rows.len() - k,
{
    if k < rows.len() {
        assert(!current_row(rows[k]@));
        lemma_no_current_from(rows, k + 1);
    }
}

/// Logout revokes, and revoking again changes nothing: after the logout
/// statement for `token`, no answer to the expiry query for it shows a valid
/// session at any clock, and a second logout leaves the table as the first did.
pub proof fn lemma_logout_revokes(
    table: Seq<SessionRecord>,
    token: Seq<char>,
    clock: Seq<char>,
    rows: Vec<Row>,
)
    requires
        answers_expiry_query(rows@, without_token(table, token), token, clock),
    ensures
        !shows_valid_session(Ok::<Vec<Row>, AppError>(rows)),
        without_token(without_token(table, token), token) == without_token(table, token),
{
    let after = without_token(table, token);
    lemma_without_token_holds_none(table, token);
    lemma_without_token_unchanged(after, token);
    assert forall|i: int| 0 <= i < rows@.len() implies !#[trigger] unexpired_row(rows@[i]@) by {
        let j = choose|j: int| 0 <= j < after.len() && after[j].token@ == token
            && #[trigger] expiry_row(rows@[i]@, after[j].expires_at@, clock);
        assert(after[j].token@ != token);
    }
}

} // verus!
