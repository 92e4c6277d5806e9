//! The request rules of the item store: the SQL each operation runs with its
//! parameters in order, and the HTTP reply each database outcome gets.
use vstd::prelude::*;
use crate::text::{signed_decimal, signed_decimal_chars, string_from_chars};

verus! {

/// The body of a request that creates an item.
#[derive(Debug)]
pub struct CreateItem {
    pub meta_id: i64,
    pub item_seq: i32,
    pub item_sq2: i32,
    pub item_name: String,
    pub item_desc: Option<String>,
}

/// The body of a request that updates an item.
#[derive(Debug)]
pub struct UpdateItem {
    pub item_seq: i32,
    pub item_sq2: i32,
    pub item_name: String,
    pub item_desc: Option<String>,
}

/// The body of a request that creates a link.
#[derive(Debug)]
pub struct CreateLink {
    pub meta_id: i64,
    pub link_l_id: i64,
    pub link_r_id: i64,
    pub link_seq: i32,
    pub link_sq2: i32,
    pub link_desc: Option<String>,
}

/// The body of a request that updates a link.
#[derive(Debug)]
pub struct UpdateLink {
    pub link_l_id: i64,
    pub link_r_id: i64,
    pub link_seq: i32,
    pub link_sq2: i32,
    pub link_desc: Option<String>,
}

/// A value bound to a `?` placeholder, with the width the column is bound at.
#[derive(Debug)]
pub enum SqlValue {
    Int32(i32),
    Int64(i64),
    Text(String),
    Null,
}

/// A bound value as verified code sees it.
pub enum SqlDatum {
    Int32(i32),
    Int64(i64),
    Text(Seq<char>),
    Null,
}

impl View for SqlValue {
    type V = SqlDatum;

    open spec fn view(&self) -> SqlDatum {
        match self {
            SqlValue::Int32(v) => SqlDatum::Int32(*v),
            SqlValue::Int64(v) => SqlDatum::Int64(*v),
            SqlValue::Text(s) => SqlDatum::Text(s@),
            SqlValue::Null => SqlDatum::Null,
        }
    }
}

/// An SQL statement and the values for its placeholders, in order.
#[derive(Debug)]
pub struct Statement {
    pub sql: String,
    pub params: Vec<SqlValue>,
}

pub open spec fn params_of(s: Statement) -> Seq<SqlDatum> {
    s.params@.map_values(|v: SqlValue| v@)
}

/// An optional text, bound as text or as `NULL`.
pub open spec fn optional_text(o: Option<String>) -> SqlDatum {
    match o {
        Some(s) => SqlDatum::Text(s@),
        None => SqlDatum::Null,
    }
}

fn optional_text_value(o: &Option<String>) -> (r: SqlValue)
    ensures
        r@ == optional_text(*o),
{
    match o {
        Some(s) => SqlValue::Text(s.clone()),
        None => SqlValue::Null,
    }
}

pub const CREATE_METAS_SQL: &'static str = r#"
        CREATE TABLE IF NOT EXISTS metas (
            meta_id INTEGER PRIMARY KEY AUTOINCREMENT,
            meta_l_id INTEGER NOT NULL DEFAULT 0,
            meta_r_id INTEGER NOT NULL DEFAULT 0,
            meta_type INTEGER NOT NULL,
            meta_name TEXT,
            updated_at TEXT NOT NULL,
            update_count INTEGER NOT NULL DEFAULT 0
        )
        "#;

pub const CREATE_ITEMS_SQL: &'static str = r#"
        CREATE TABLE IF NOT EXISTS items (
            id INTEGER PRIMARY KEY AUTOINCREMENT,
            meta_id INTEGER NOT NULL,
            item_seq INTEGER NOT NULL,
            item_sq2 INTEGER NOT NULL,
            item_name TEXT NOT NULL,
            item_desc TEXT,
            updated_at TEXT NOT NULL,
            update_count INTEGER NOT NULL DEFAULT 0,
            FOREIGN KEY (meta_id) REFERENCES metas (meta_id) ON DELETE CASCADE
        )
        "#;

pub const CREATE_LINKS_SQL: &'static str = r#"
        CREATE TABLE IF NOT EXISTS links (
            link_id INTEGER PRIMARY KEY AUTOINCREMENT,
            meta_id INTEGER NOT NULL,
            link_l_id INTEGER NOT NULL,
            link_r_id INTEGER NOT NULL,
            link_seq INTEGER NOT NULL,
            link_sq2 INTEGER NOT NULL,
            link_desc TEXT,
            updated_at TEXT NOT NULL,
            update_count INTEGER NOT NULL DEFAULT 0,
            FOREIGN KEY (meta_id) REFERENCES metas (meta_id) ON DELETE CASCADE
        )
        "#;

/// The number of statements that create the schema.
pub const SCHEMA_STATEMENT_COUNT: usize = 3;

/// The statements that create the three tables, in the order they must run
/// (items and links refer to metas).
pub fn schema_statements() -> (r: Vec<Statement>)
    ensures
        r@.len() == SCHEMA_STATEMENT_COUNT,
        r@[0].sql@ == CREATE_METAS_SQL@,
        r@[1].sql@ == CREATE_ITEMS_SQL@,
        r@[2].sql@ == CREATE_LINKS_SQL@,
        forall|k: int| 0 <= k < 3 ==> (#[trigger] r@[k]).params@.len() == 0,
{
    let mut r: Vec<Statement> = Vec::new();
    r.push(Statement { sql: String::from_str(CREATE_METAS_SQL), params: Vec::new() });
    r.push(Statement { sql: String::from_str(CREATE_ITEMS_SQL), params: Vec::new() });
    r.push(Statement { sql: String::from_str(CREATE_LINKS_SQL), params: Vec::new() });
    r
}

/// What schema creation does next: run the schema statement at an index,
/// report success, or stop with the error of the statement that failed.
#[derive(Clone, Copy, Debug, PartialEq, Eq, Structural)]
pub enum SchemaAction {
    Execute(usize),
    Finished,
    Abort,
}

/// The action after the statements below `ran` have all succeeded.
pub open spec fn schema_action_after(ran: nat) -> SchemaAction {
    if ran < SCHEMA_STATEMENT_COUNT {
        SchemaAction::Execute(ran as usize)
    } else {
        SchemaAction::Finished
    }
}

/// Schema creation starts with the first statement.
pub fn schema_begin() -> (r: SchemaAction)
    ensures
        r == schema_action_after(0),
        r == SchemaAction::Execute(0),
{
    SchemaAction::Execute(0)
}

/// The next action once the statement at `index` has run: the next statement
/// in order after a success, success after the last one, and a stop at the
/// first failure.
pub fn schema_step(index: usize, succeeded: bool) -> (r: SchemaAction)
    requires
        index < SCHEMA_STATEMENT_COUNT,
    ensures
        succeeded ==> r == schema_action_after((index + 1) as nat),
        !succeeded ==> r == SchemaAction::Abort,
{
    if !succeeded {
        SchemaAction::Abort
    } else if index + 1 < SCHEMA_STATEMENT_COUNT {
        SchemaAction::Execute(index + 1)
    } else {
        SchemaAction::Finished
    }
}

/// The actions of a schema creation in which the statements run give the
/// outcomes `outcomes`, in order, up to the last action taken.
pub open spec fn schema_run(outcomes: Seq<bool>) -> SchemaAction
    decreases outcomes.len(),
{
    if outcomes.len() == 0 {
        schema_action_after(0)
    } else {
        match schema_run(outcomes.drop_last()) {
            SchemaAction::Execute(i) => if outcomes.last() {
                schema_action_after((i + 1) as nat)
            } else {
                SchemaAction::Abort
            },
            other => other,
        }
    }
}

/// Schema creation runs the statements in order, each once: after `k`
/// successes it runs statement `k` (or has finished, once all have run), and
/// the first failure stops it for good.
pub proof fn lemma_schema_runs_in_order(outcomes: Seq<bool>)
    ensures
        (forall|j: int| 0 <= j < outcomes.len() ==> #[trigger] outcomes[j]) ==> schema_run(outcomes)
            == schema_action_after(outcomes.len()),
        (exists|j: int| 0 <= j < outcomes.len() && j < SCHEMA_STATEMENT_COUNT && !#[trigger] outcomes[j])
            ==> schema_run(outcomes) == SchemaAction::Abort,
    decreases outcomes.len(),
{
    if outcomes.len() > 0 {
        let prefix = outcomes.drop_last();
        lemma_schema_runs_in_order(prefix);
        if forall|j: int| 0 <= j < outcomes.len() ==> #[trigger] outcomes[j] {
            assert forall|j: int| 0 <= j < prefix.len() implies #[trigger] prefix[j] by {
                assert(outcomes[j]);
            }
        }
        if exists|j: int| 0 <= j < outcomes.len() && j < SCHEMA_STATEMENT_COUNT && !#[trigger] outcomes[j] {
            let j = choose|j: int| 0 <= j < outcomes.len() && j < SCHEMA_STATEMENT_COUNT && !#[trigger] outcomes[j];
            if exists|m: int| 0 <= m < prefix.len() && m < SCHEMA_STATEMENT_COUNT && !#[trigger] prefix[m] {
            } else {
                assert(j == prefix.len()) by {
                    if j < prefix.len() {
                        assert(!prefix[j]);
                    }
                }
                assert forall|m: int| 0 <= m < prefix.len() implies #[trigger] prefix[m] by {
                    assert(m < SCHEMA_STATEMENT_COUNT);
                }
            }
        }
    }
}

pub const INSERT_ITEM_SQL: &'static str = "INSERT INTO items (meta_id, item_seq, item_sq2, item_name, item_desc, updated_at, update_count) VALUES (?, ?, ?, ?, ?, ?, 1) RETURNING *";

pub const SELECT_ITEMS_SQL: &'static str = "SELECT * FROM items";

pub const SELECT_ITEM_SQL: &'static str = "SELECT * FROM items WHERE id = ?";

pub const UPDATE_ITEM_SQL: &'static str = "UPDATE items SET item_seq = ?, item_sq2 = ?, item_name = ?, item_desc = ?, updated_at = ?, update_count = update_count + 1 WHERE id = ? RETURNING *";

pub const DELETE_ITEM_SQL: &'static str = "DELETE FROM items WHERE id = ?";

pub const INSERT_LINK_SQL: &'static str = "INSERT INTO links (meta_id, link_l_id, link_r_id, link_seq, link_sq2, link_desc, updated_at, update_count) VALUES (?, ?, ?, ?, ?, ?, ?, 1) RETURNING *";

pub const SELECT_LINKS_SQL: &'static str = "SELECT * FROM links";

pub const SELECT_LINK_SQL: &'static str = "SELECT * FROM links WHERE link_id = ?";

pub const UPDATE_LINK_SQL: &'static str = "UPDATE links SET link_l_id = ?, link_r_id = ?, link_seq = ?, link_sq2 = ?, link_desc = ?, updated_at = ?, update_count = update_count + 1 WHERE link_id = ? RETURNING *";

pub const DELETE_LINK_SQL: &'static str = "DELETE FROM links WHERE link_id = ?";

pub const SELECT_METAS_SQL: &'static str = "SELECT * FROM metas";

pub const SELECT_META_SQL: &'static str = "SELECT * FROM metas WHERE meta_id = ?";

fn plain(sql: &'static str) -> (r: Statement)
    ensures
        r.sql@ == sql@,
        params_of(r) == Seq::<SqlDatum>::empty(),
{
    let r = Statement { sql: String::from_str(sql), params: Vec::new() };
    assert(params_of(r) =~= Seq::<SqlDatum>::empty());
    r
}

fn by_id(sql: &'static str, id: i64) -> (r: Statement)
    ensures
        r.sql@ == sql@,
        params_of(r) == seq![SqlDatum::Int64(id)],
{
    let mut params: Vec<SqlValue> = Vec::new();
    params.push(SqlValue::Int64(id));
    let r = Statement { sql: String::from_str(sql), params };
    assert(params_of(r) =~= seq![SqlDatum::Int64(id)]);
    r
}

/// Inserts an item stamped `updated_at` with an update count of 1, returning the new row.
pub fn create_item_statement(payload: &CreateItem, updated_at: &str) -> (r: Statement)
    ensures
        r.sql@ == INSERT_ITEM_SQL@,
        params_of(r) == seq![
            SqlDatum::Int64(payload.meta_id),
            SqlDatum::Int32(payload.item_seq),
            SqlDatum::Int32(payload.item_sq2),
            SqlDatum::Text(payload.item_name@),
            optional_text(payload.item_desc),
            SqlDatum::Text(updated_at@),
        ],
{
    let mut params: Vec<SqlValue> = Vec::new();
    params.push(SqlValue::Int64(payload.meta_id));
    params.push(SqlValue::Int32(payload.item_seq));
    params.push(SqlValue::Int32(payload.item_sq2));
    params.push(SqlValue::Text(payload.item_name.clone()));
    params.push(optional_text_value(&payload.item_desc));
    params.push(SqlValue::Text(String::from_str(updated_at)));
    let r = Statement { sql: String::from_str(INSERT_ITEM_SQL), params };
    assert(params_of(r) =~= seq![
        SqlDatum::Int64(payload.meta_id),
        SqlDatum::Int32(payload.item_seq),
        SqlDatum::Int32(payload.item_sq2),
        SqlDatum::Text(payload.item_name@),
        optional_text(payload.item_desc),
        SqlDatum::Text(updated_at@),
    ]);
    r
}

/// Selects all items.
pub fn list_items_statement() -> (r: Statement)
    ensures
        r.sql@ == SELECT_ITEMS_SQL@,
        params_of(r) == Seq::<SqlDatum>::empty(),
{
    plain(SELECT_ITEMS_SQL)
}

/// Selects the item with the id.
pub fn get_item_statement(id: i64) -> (r: Statement)
    ensures
        r.sql@ == SELECT_ITEM_SQL@,
        params_of(r) == seq![SqlDatum::Int64(id)],
{
    by_id(SELECT_ITEM_SQL, id)
}

/// Overwrites the fields of the item with the id, stamps it `updated_at` and
/// counts one update more, returning the row.
pub fn update_item_statement(id: i64, payload: &UpdateItem, updated_at: &str) -> (r: Statement)
    ensures
        r.sql@ == UPDATE_ITEM_SQL@,
        params_of(r) == seq![
            SqlDatum::Int32(payload.item_seq),
            SqlDatum::Int32(payload.item_sq2),
            SqlDatum::Text(payload.item_name@),
            optional_text(payload.item_desc),
            SqlDatum::Text(updated_at@),
            SqlDatum::Int64(id),
        ],
{
    let mut params: Vec<SqlValue> = Vec::new();
    params.push(SqlValue::Int32(payload.item_seq));
    params.push(SqlValue::Int32(payload.item_sq2));
    params.push(SqlValue::Text(payload.item_name.clone()));
    params.push(optional_text_value(&payload.item_desc));
    params.push(SqlValue::Text(String::from_str(updated_at)));
    params.push(SqlValue::Int64(id));
    let r = Statement { sql: String::from_str(UPDATE_ITEM_SQL), params };
    assert(params_of(r) =~= seq![
        SqlDatum::Int32(payload.item_seq),
        SqlDatum::Int32(payload.item_sq2),
        SqlDatum::Text(payload.item_name@),
        optional_text(payload.item_desc),
        SqlDatum::Text(updated_at@),
        SqlDatum::Int64(id),
    ]);
    r
}

/// Deletes the item with the id.
pub fn delete_item_statement(id: i64) -> (r: Statement)
    ensures
        r.sql@ == DELETE_ITEM_SQL@,
        params_of(r) == seq![SqlDatum::Int64(id)],
{
    by_id(DELETE_ITEM_SQL, id)
}

/// Inserts a link stamped `updated_at` with an update count of 1, returning the new row.
pub fn create_link_statement(payload: &CreateLink, updated_at: &str) -> (r: Statement)
    ensures
        r.sql@ == INSERT_LINK_SQL@,
        params_of(r) == seq![
            SqlDatum::Int64(payload.meta_id),
            SqlDatum::Int64(payload.link_l_id),
            SqlDatum::Int64(payload.link_r_id),
            SqlDatum::Int32(payload.link_seq),
            SqlDatum::Int32(payload.link_sq2),
            optional_text(payload.link_desc),
            SqlDatum::Text(updated_at@),
        ],
{
    let mut params: Vec<SqlValue> = Vec::new();
    params.push(SqlValue::Int64(payload.meta_id));
    params.push(SqlValue::Int64(payload.link_l_id));
    params.push(SqlValue::Int64(payload.link_r_id));
    params.push(SqlValue::Int32(payload.link_seq));
    params.push(SqlValue::Int32(payload.link_sq2));
    params.push(optional_text_value(&payload.link_desc));
    params.push(SqlValue::Text(String::from_str(updated_at)));
    let r = Statement { sql: String::from_str(INSERT_LINK_SQL), params };
    assert(params_of(r) =~= seq![
        SqlDatum::Int64(payload.meta_id),
        SqlDatum::Int64(payload.link_l_id),
        SqlDatum::Int64(payload.link_r_id),
        SqlDatum::Int32(payload.link_seq),
        SqlDatum::Int32(payload.link_sq2),
        optional_text(payload.link_desc),
        SqlDatum::Text(updated_at@),
    ]);
    r
}

/// Selects all links.
pub fn list_links_statement() -> (r: Statement)
    ensures
        r.sql@ == SELECT_LINKS_SQL@,
        params_of(r) == Seq::<SqlDatum>::empty(),
{
    plain(SELECT_LINKS_SQL)
}

/// Selects the link with the id.
pub fn get_link_statement(id: i64) -> (r: Statement)
    ensures
        r.sql@ == SELECT_LINK_SQL@,
        params_of(r) == seq![SqlDatum::Int64(id)],
{
    by_id(SELECT_LINK_SQL, id)
}

/// Overwrites the fields of the link with the id, stamps it `updated_at` and
/// counts one update more, returning the row.
pub fn update_link_statement(id: i64, payload: &UpdateLink, updated_at: &str) -> (r: Statement)
    ensures
        r.sql@ == UPDATE_LINK_SQL@,
        params_of(r) == seq![
            SqlDatum::Int64(payload.link_l_id),
            SqlDatum::Int64(payload.link_r_id),
            SqlDatum::Int32(payload.link_seq),
            SqlDatum::Int32(payload.link_sq2),
            optional_text(payload.link_desc),
            SqlDatum::Text(updated_at@),
            SqlDatum::Int64(id),
        ],
{
    let mut params: Vec<SqlValue> = Vec::new();
    params.push(SqlValue::Int64(payload.link_l_id));
    params.push(SqlValue::Int64(payload.link_r_id));
    params.push(SqlValue::Int32(payload.link_seq));
    params.push(SqlValue::Int32(payload.link_sq2));
    params.push(optional_text_value(&payload.link_desc));
    params.push(SqlValue::Text(String::from_str(updated_at)));
    params.push(SqlValue::Int64(id));
    let r = Statement { sql: String::from_str(UPDATE_LINK_SQL), params };
    assert(params_of(r) =~= seq![
        SqlDatum::Int64(payload.link_l_id),
        SqlDatum::Int64(payload.link_r_id),
        SqlDatum::Int32(payload.link_seq),
        SqlDatum::Int32(payload.link_sq2),
        optional_text(payload.link_desc),
        SqlDatum::Text(updated_at@),
        SqlDatum::Int64(id),
    ]);
    r
}

/// Deletes the link with the id.
pub fn delete_link_statement(id: i64) -> (r: Statement)
    ensures
        r.sql@ == DELETE_LINK_SQL@,
        params_of(r) == seq![SqlDatum::Int64(id)],
{
    by_id(DELETE_LINK_SQL, id)
}

/// Selects all metas.
pub fn list_metas_statement() -> (r: Statement)
    ensures
        r.sql@ == SELECT_METAS_SQL@,
        params_of(r) == Seq::<SqlDatum>::empty(),
{
    plain(SELECT_METAS_SQL)
}

/// Selects the meta with the id.
pub fn get_meta_statement(id: i64) -> (r: Statement)
    ensures
        r.sql@ == SELECT_META_SQL@,
        params_of(r) == seq![SqlDatum::Int64(id)],
{
    by_id(SELECT_META_SQL, id)
}

pub const STATUS_NO_CONTENT: u16 = 204;

pub const STATUS_NOT_FOUND: u16 = 404;

pub const STATUS_INTERNAL_SERVER_ERROR: u16 = 500;

/// The kinds of rows the store serves.
#[derive(Clone, Copy, Debug, PartialEq, Eq, Structural)]
pub enum Entity {
    Item,
    Link,
    Meta,
}

pub open spec fn entity_name(e: Entity) -> Seq<char> {
    match e {
        Entity::Item => "Item"@,
        Entity::Link => "Link"@,
        Entity::Meta => "Meta"@,
    }
}

/// A failed database call: the query found no row, or failed otherwise; each
/// carries the text of the database error.
#[derive(Debug)]
pub enum DbFailure {
    RowNotFound(String),
    Other(String),
}

pub open spec fn failure_text(f: DbFailure) -> Seq<char> {
    match f {
        DbFailure::RowNotFound(t) => t@,
        DbFailure::Other(t) => t@,
    }
}

/// An HTTP error reply: a status code and a message.
#[derive(Debug)]
pub struct ErrorReply {
    pub status: u16,
    pub message: String,
}

/// The message for a lookup of an id that has no row.
pub open spec fn missing_message(e: Entity, id: int) -> Seq<char> {
    entity_name(e) + " with id "@ + signed_decimal(id) + " not found"@
}

/// The replies use the HTTP statuses 204 (no content), 404 (not found) and 500
/// (internal server error), and a lookup that finds no row says
/// "<Entity> with id <id> not found", with the id in decimal.
pub proof fn lemma_reply_statuses_and_messages(id: int)
    ensures
        STATUS_NO_CONTENT == 204,
        STATUS_NOT_FOUND == 404,
        STATUS_INTERNAL_SERVER_ERROR == 500,
        missing_message(Entity::Item, id) == "Item"@ + " with id "@ + signed_decimal(id) + " not found"@,
        missing_message(Entity::Link, id) == "Link"@ + " with id "@ + signed_decimal(id) + " not found"@,
        missing_message(Entity::Meta, id) == "Meta"@ + " with id "@ + signed_decimal(id) + " not found"@,
{
}

/// Any failure of a write or of a listing is a server error that carries the
/// database's message.
pub fn failure_reply(failure: &DbFailure) -> (r: ErrorReply)
    ensures
        r.status == STATUS_INTERNAL_SERVER_ERROR,
        r.message@ == failure_text(*failure),
{
    match failure {
        DbFailure::RowNotFound(t) => ErrorReply { status: STATUS_INTERNAL_SERVER_ERROR, message: t.clone() },
        DbFailure::Other(t) => ErrorReply { status: STATUS_INTERNAL_SERVER_ERROR, message: t.clone() },
    }
}

/// A lookup by id that finds no row is "not found" with a message naming the
/// entity and the id; any other failure is a server error with the database's message.
pub fn lookup_failure_reply(entity: Entity, id: i64, failure: &DbFailure) -> (r: ErrorReply)
    ensures
        failure is RowNotFound ==> r.status == STATUS_NOT_FOUND && r.message@ == missing_message(entity, id as int),
        failure is Other ==> r.status == STATUS_INTERNAL_SERVER_ERROR && r.message@ == failure_text(*failure),
{
    match failure {
        DbFailure::RowNotFound(_) => {
            let mut m = match entity {
                Entity::Item => String::from_str("Item"),
                Entity::Link => String::from_str("Link"),
                Entity::Meta => String::from_str("Meta"),
            };
            m.append(" with id ");
            let digits = string_from_chars(signed_decimal_chars(id).as_slice());
            m.append(digits.as_str());
            m.append(" not found");
            ErrorReply { status: STATUS_NOT_FOUND, message: m }
        }
        DbFailure::Other(t) => ErrorReply { status: STATUS_INTERNAL_SERVER_ERROR, message: t.clone() },
    }
}

/// The reply to a create, an update or a listing: the rows on success, a
/// server error otherwise.
pub fn row_reply<T>(outcome: Result<T, DbFailure>) -> (r: Result<T, ErrorReply>)
    ensures
        outcome is Ok ==> r == Ok::<T, ErrorReply>(outcome->Ok_0),
        outcome is Err ==> r is Err && r->Err_0.status == STATUS_INTERNAL_SERVER_ERROR
            && r->Err_0.message@ == failure_text(outcome->Err_0),
{
    match outcome {
        Ok(row) => Ok(row),
        Err(f) => Err(failure_reply(&f)),
    }
}

/// The reply to a lookup of `id`: the row when found, otherwise as
/// `lookup_failure_reply` says.
pub fn lookup_reply<T>(entity: Entity, id: i64, outcome: Result<T, DbFailure>) -> (r: Result<T, ErrorReply>)
    ensures
        outcome is Ok ==> r == Ok::<T, ErrorReply>(outcome->Ok_0),
        outcome is Err && outcome->Err_0 is RowNotFound ==> r is Err && r->Err_0.status == STATUS_NOT_FOUND
            && r->Err_0.message@ == missing_message(entity, id as int),
        outcome is Err && outcome->Err_0 is Other ==> r is Err && r->Err_0.status
            == STATUS_INTERNAL_SERVER_ERROR && r->Err_0.message@ == failure_text(outcome->Err_0),
{
    match outcome {
        Ok(row) => Ok(row),
        Err(f) => Err(lookup_failure_reply(entity, id, &f)),
    }
}

/// The reply to a delete: "no content" once the statement ran, whether or not
/// a row had the id; a server error when it failed.
pub fn delete_reply(outcome: Result<(), DbFailure>) -> (r: Result<u16, ErrorReply>)
    ensures
        outcome is Ok ==> r == Ok::<u16, ErrorReply>(STATUS_NO_CONTENT),
        outcome is Err ==> r is Err && r->Err_0.status == STATUS_INTERNAL_SERVER_ERROR
            && r->Err_0.message@ == failure_text(outcome->Err_0),
{
    match outcome {
        Ok(()) => Ok(STATUS_NO_CONTENT),
        Err(f) => Err(failure_reply(&f)),
    }
}

} // verus!
