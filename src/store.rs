//! The row-store gateway: what is asked of a REST row store for each domain
//! operation, and how its answers are turned into a row or an error.
//!
//! An insert through the store's REST interface hands back only the new
//! identifier, and there is no native upsert. [`StoreTask`] therefore runs a
//! create-or-update by natural key as a read, then an update or an insert,
//! then a read of the row by its id. The task never touches the network: it
//! names the next request, and the caller performs it and hands back the
//! reply. Nothing guards two upserts on one key that run at the same time.

use vstd::prelude::*;
use crate::config::AppConfig;
use crate::models::{AccountType, CategoryKind, CreateTransactionInput, ListAccountsInput};
use crate::models::{UpsertAccountInput, UpsertCategoryInput};
use crate::rows::{accounts_found, extract_id, filter_accounts, has_id, normalize_id, opt_view, row_has_id, row_id};
use crate::text::{eq_ignore_ascii_case, eq_ignoring_ascii_case, strip_char, strip_end, strip_end_char};

verus! {

/// Result count of a similarity search when the caller names none.
pub const DEFAULT_MATCH_COUNT: u32 = 5;

/// Largest result count of a similarity search.
pub const MAX_MATCH_COUNT: u32 = 25;

/// The result count of a similarity search: the requested count, or the
/// default, held between 1 and the maximum.
pub open spec fn resolved_limit(limit: Option<u32>) -> int {
    let asked: int = match limit {
        Some(n) => n as int,
        None => DEFAULT_MATCH_COUNT as int,
    };
    if asked < 1 {
        1
    } else if asked > MAX_MATCH_COUNT {
        MAX_MATCH_COUNT as int
    } else {
        asked
    }
}

/// Normalizes the result count of a similarity search.
pub fn resolve_limit(limit: Option<u32>) -> (r: u32)
    ensures
        r == resolved_limit(limit),
        1 <= r <= MAX_MATCH_COUNT,
{
    let asked = match limit {
        Some(n) => n,
        None => DEFAULT_MATCH_COUNT,
    };
    if asked < 1 {
        1
    } else if asked > MAX_MATCH_COUNT {
        MAX_MATCH_COUNT
    } else {
        asked
    }
}

/// Concatenation of three texts.
fn join3(a: &str, b: &str, c: &str) -> (r: String)
    ensures
        r@ == a@ + b@ + c@,
{
    let mut m = String::from_str(a);
    m.append(b);
    m.append(c);
    m
}

/// Concatenation of four texts.
fn join4(a: &str, b: &str, c: &str, d: &str) -> (r: String)
    ensures
        r@ == a@ + b@ + c@ + d@,
{
    let mut m = join3(a, b, c);
    m.append(d);
    m
}

/// The tables the gateway writes and reads.
#[derive(Debug, Clone, Copy, PartialEq, Eq, Structural)]
pub enum Table {
    Transactions,
    Categories,
    Accounts,
}

impl Table {
    pub open spec fn spec_name(self) -> Seq<char> {
        match self {
            Table::Transactions => "transactions"@,
            Table::Categories => "categories"@,
            Table::Accounts => "accounts"@,
        }
    }

    /// What one row of the table is called in messages.
    pub open spec fn spec_entity(self) -> Seq<char> {
        match self {
            Table::Transactions => "transaction"@,
            Table::Categories => "category"@,
            Table::Accounts => "account"@,
        }
    }

    pub fn name(&self) -> (r: &'static str)
        ensures
            r@ == self.spec_name(),
    {
        match self {
            Table::Transactions => "transactions",
            Table::Categories => "categories",
            Table::Accounts => "accounts",
        }
    }

    pub fn entity(&self) -> (r: &'static str)
        ensures
            r@ == self.spec_entity(),
    {
        match self {
            Table::Transactions => "transaction",
            Table::Categories => "category",
            Table::Accounts => "account",
        }
    }
}

/// The TLS implementation behind the HTTP client of the RPC calls.
#[derive(Debug, Clone, Copy, PartialEq, Eq, Structural)]
pub enum TlsBackend {
    Native,
    Rustls,
}

/// A boolean switch: set, and `true` in any case.
pub open spec fn switch_on(v: Option<String>) -> bool {
    v matches Some(s) && eq_ignore_ascii_case(s@, "true"@)
}

fn is_switch_on(v: &Option<String>) -> (r: bool)
    ensures
        r == switch_on(*v),
{
    match v {
        Some(s) => eq_ignoring_ascii_case(s.as_str(), "true"),
        None => false,
    }
}

/// Where and how the row store is reached.
#[derive(Debug, Clone)]
pub struct StoreSettings {
    pub rest_base: String,
    pub rpc_base: String,
    pub service_key: String,
    pub schema: String,
    pub tls: TlsBackend,
    /// Certificate checks are off: for tests against non-production hosts
    /// only, and to be reported loudly.
    pub accept_invalid_certs: bool,
}

/// The REST base of a store URL: the URL without trailing slashes, then
/// `/rest/v1` unless the plain root is asked for.
pub open spec fn rest_base_of(url: Seq<char>, plain_root: bool) -> Seq<char> {
    if plain_root {
        strip_end_char(url, '/')
    } else {
        strip_end_char(url, '/') + "/rest/v1"@
    }
}

impl StoreSettings {
    /// Settings from the configuration and the values of the switches
    /// `USE_NATIVE_TLS`, `DANGER_ACCEPT_INVALID_CERTS` and
    /// `SUPABASE_RS_DONT_REST_V1_URL`, each `None` when unset.
    pub fn new(
        config: &AppConfig,
        use_native_tls: Option<String>,
        accept_invalid_certs: Option<String>,
        plain_root: Option<String>,
    ) -> (r: StoreSettings)
        ensures
            r.rest_base@ == rest_base_of(config.supabase_url@, switch_on(plain_root)),
            r.rpc_base@ == r.rest_base@ + "/rpc"@,
            r.service_key@ == config.supabase_service_key@,
            r.schema@ == "public"@,
            r.tls == (if switch_on(use_native_tls) {
                TlsBackend::Native
            } else {
                TlsBackend::Rustls
            }),
            r.accept_invalid_certs == switch_on(accept_invalid_certs),
    {
        let base = strip_end(config.supabase_url.as_str(), '/');
        let rest_base = if is_switch_on(&plain_root) {
            String::from_str(base)
        } else {
            let mut b = String::from_str(base);
            b.append("/rest/v1");
            b
        };
        let mut rpc_base = rest_base.clone();
        rpc_base.append("/rpc");
        StoreSettings {
            rest_base,
            rpc_base,
            service_key: config.supabase_service_key.clone(),
            schema: String::from_str("public"),
            tls: if is_switch_on(&use_native_tls) {
                TlsBackend::Native
            } else {
                TlsBackend::Rustls
            },
            accept_invalid_certs: is_switch_on(&accept_invalid_certs),
        }
    }

    /// The headers of an RPC call: the service key as `apikey` and as a
    /// bearer credential, JSON both ways, and the schema as profile.
    pub fn rpc_headers(&self) -> (r: Vec<(String, String)>)
        ensures
            pairs_view(r@) == seq![
                ("apikey"@, self.service_key@),
                ("Authorization"@, "Bearer "@ + self.service_key@),
                ("Content-Type"@, "application/json"@),
                ("Accept"@, "application/json"@),
                ("Accept-Profile"@, self.schema@),
                ("Content-Profile"@, self.schema@),
            ],
    {
        let mut h: Vec<(String, String)> = Vec::new();
        h.push((String::from_str("apikey"), self.service_key.clone()));
        let mut bearer = String::from_str("Bearer ");
        bearer.append(self.service_key.as_str());
        h.push((String::from_str("Authorization"), bearer));
        h.push((String::from_str("Content-Type"), String::from_str("application/json")));
        h.push((String::from_str("Accept"), String::from_str("application/json")));
        h.push((String::from_str("Accept-Profile"), self.schema.clone()));
        h.push((String::from_str("Content-Profile"), self.schema.clone()));
        assert(pairs_view(h@) =~= seq![
            ("apikey"@, self.service_key@),
            ("Authorization"@, "Bearer "@ + self.service_key@),
            ("Content-Type"@, "application/json"@),
            ("Accept"@, "application/json"@),
            ("Accept-Profile"@, self.schema@),
            ("Content-Profile"@, self.schema@),
        ]);
        h
    }

    /// A similarity search as an RPC call: the stored function of the
    /// target, the query embedding, and the normalized result count.
    pub fn search_request<V>(&self, target: SearchTarget, embedding: V, limit: Option<u32>) -> (r:
        RpcRequest<V>)
        ensures
            r.url@ == self.rpc_base@ + "/"@ + target.spec_function(),
            r.function@ == target.spec_function(),
            r.query_embedding == embedding,
            r.match_count == resolved_limit(limit),
    {
        let function = target.function();
        RpcRequest {
            url: join3(self.rpc_base.as_str(), "/", function),
            function: String::from_str(function),
            query_embedding: embedding,
            match_count: resolve_limit(limit),
        }
    }
}

/// What a similarity search runs against.
#[derive(Debug, Clone, Copy, PartialEq, Eq, Structural)]
pub enum SearchTarget {
    Transactions,
    Categories,
}

impl SearchTarget {
    pub open spec fn spec_function(self) -> Seq<char> {
        match self {
            SearchTarget::Transactions => "search_similar_transactions"@,
            SearchTarget::Categories => "search_similar_categories"@,
        }
    }

    /// The stored function of the store that answers the search.
    pub fn function(&self) -> (r: &'static str)
        ensures
            r@ == self.spec_function(),
    {
        match self {
            SearchTarget::Transactions => "search_similar_transactions",
            SearchTarget::Categories => "search_similar_categories",
        }
    }
}

/// A POST to a stored function, with body
/// `{query_embedding, match_count}`.
#[derive(Debug, Clone)]
pub struct RpcRequest<V> {
    pub url: String,
    pub function: String,
    pub query_embedding: V,
    pub match_count: u32,
}

/// Whether an HTTP status counts as success.
pub fn rpc_status_ok(status: u16) -> (r: bool)
    ensures
        r == (200 <= status < 300),
{
    200 <= status && status < 300
}

/// The error of an RPC call answered with a failure status.
pub fn rpc_failure_message(function: &str, status: &str, body: &str) -> (r: String)
    ensures
        r@ == "RPC "@ + function@ + " failed ("@ + status@ + "): "@ + body@,
{
    let mut m = join4("RPC ", function, " failed (", status);
    m.append("): ");
    m.append(body);
    m
}

/// The view of a list of text pairs.
pub open spec fn pairs_view(p: Seq<(String, String)>) -> Seq<(Seq<char>, Seq<char>)> {
    p.map_values(|e: (String, String)| (e.0@, e.1@))
}

/// A category row as written: the kind defaults to expense, the description
/// to the name.
#[derive(Debug, Clone)]
pub struct CategoryRecord<V> {
    pub name: String,
    pub kind: CategoryKind,
    pub description: String,
    pub embedding: Option<V>,
}

/// The row written for a category input.
pub open spec fn category_record_of<V>(
    input: UpsertCategoryInput,
    embedding: Option<V>,
    rec: CategoryRecord<V>,
) -> bool {
    &&& rec.name@ == input.name@
    &&& rec.kind == match input.kind {
        Some(k) => k,
        None => CategoryKind::Expense,
    }
    &&& rec.description@ == match input.description {
        Some(d) => d@,
        None => input.name@,
    }
    &&& rec.embedding == embedding
}

/// Builds the row written for a category input.
pub fn category_record<V>(input: UpsertCategoryInput, embedding: Option<V>) -> (r: CategoryRecord<
    V,
>)
    ensures
        category_record_of(input, embedding, r),
{
    let kind = match input.kind {
        Some(k) => k,
        None => CategoryKind::Expense,
    };
    let description = match input.description {
        Some(d) => d,
        None => input.name.clone(),
    };
    CategoryRecord { name: input.name, kind, description, embedding }
}

/// The columns written by an insert or an update.
#[derive(Debug, Clone)]
pub enum Payload<V> {
    Transaction(CreateTransactionInput, Option<V>),
    Category(CategoryRecord<V>),
    Account(UpsertAccountInput),
}

/// One request to the row store.
#[derive(Debug, Clone)]
pub enum StoreRequest<V> {
    /// Rows of `table` whose columns equal `filters`, ordered by name if
    /// asked, at most `limit` of them if set.
    Select {
        table: Table,
        filters: Vec<(String, String)>,
        order_by_name: bool,
        limit: Option<u32>,
    },
    /// A new row; the store answers with its identifier only.
    Insert { table: Table, payload: Payload<V> },
    /// New values for the row with identifier `id`.
    Update { table: Table, id: String, payload: Payload<V> },
}

/// The store's answer to a request, or the text of its failure.
#[derive(Debug)]
pub enum StoreReply {
    Selected(Result<Vec<serde_json::Value>, String>),
    Inserted(Result<String, String>),
    Updated(Result<(), String>),
}

/// What a finished store operation returns.
#[derive(Debug, Clone)]
pub enum StoreOutcome {
    Row(serde_json::Value),
    Rows(Vec<serde_json::Value>),
}

/// The next move of a store operation: a request to perform, or its end.
#[derive(Debug)]
pub enum StoreStep<V> {
    Call(StoreRequest<V>),
    Finished(Result<StoreOutcome, String>),
}

/// A store operation in progress, by what it waits for.
#[derive(Debug)]
pub enum StoreTask<V> {
    /// The read by natural key of an upsert.
    Lookup { table: Table, payload: Payload<V> },
    /// The insert of a new row.
    Inserting { table: Table },
    /// The update of the row found by natural key.
    Updating { table: Table, id: String },
    /// The read of the written row by its identifier.
    Refetching { table: Table, id: String },
    /// The read of an account listing.
    Listing { search: Option<String> },
    /// Nothing: the operation has ended.
    Done,
}

/// A step that selects from `table` with these filters, order and limit.
pub open spec fn selects<V>(
    step: StoreStep<V>,
    table: Table,
    filters: Seq<(Seq<char>, Seq<char>)>,
    order_by_name: bool,
    limit: Option<u32>,
) -> bool {
    &&& step matches StoreStep::Call(
        StoreRequest::Select { table: t, filters: f, order_by_name: o, limit: l },
    )
    &&& t == table
    &&& pairs_view(f@) == filters
    &&& o == order_by_name
    &&& l == limit
}

/// A step that reads the row of `table` with identifier `id`.
pub open spec fn selects_id<V>(step: StoreStep<V>, table: Table, id: Seq<char>) -> bool {
    selects(step, table, seq![("id"@, id)], false, Some(1u32))
}

/// A step that ends the operation with the error text `msg`.
pub open spec fn fails_with<V>(step: StoreStep<V>, msg: Seq<char>) -> bool {
    step matches StoreStep::Finished(Err(m)) && m@ == msg
}

/// The error text of a failed read.
pub open spec fn query_failed(table: Table, e: Seq<char>) -> Seq<char> {
    "failed to query "@ + table.spec_name() + ": "@ + e
}

/// The error text of a row that should carry an identifier and does not.
pub open spec fn missing_id() -> Seq<char> {
    "row missing id column"@
}

/// The error text of a reply that does not answer the pending request.
pub open spec fn unexpected_reply() -> Seq<char> {
    "unexpected reply from the row store"@
}

/// The error text of a reply when no request is pending.
pub open spec fn nothing_pending() -> Seq<char> {
    "no row store request is pending"@
}

/// The filters that identify an account by its natural key.
pub open spec fn account_key(input: UpsertAccountInput) -> Seq<(Seq<char>, Seq<char>)> {
    seq![("name"@, input.name@), ("type"@, input.account_type.label())]
}

/// The type filter of an account listing.
pub open spec fn list_filters(account_type: Option<AccountType>) -> Seq<(Seq<char>, Seq<char>)> {
    match account_type {
        Some(t) => seq![("type"@, t.label())],
        None => seq![],
    }
}

/// A task waiting for the read of the row of `table` with identifier `id`.
pub open spec fn refetching<V>(task: StoreTask<V>, table: Table, id: Seq<char>) -> bool {
    &&& task matches StoreTask::Refetching { table: t, id: i }
    &&& t == table
    &&& i@ == id
}

/// A task waiting for the update of the row of `table` with identifier `id`.
pub open spec fn updating<V>(task: StoreTask<V>, table: Table, id: Seq<char>) -> bool {
    &&& task matches StoreTask::Updating { table: t, id: i }
    &&& t == table
    &&& i@ == id
}

/// A step that updates the row of `table` with identifier `id` to `payload`.
pub open spec fn updates<V>(step: StoreStep<V>, table: Table, id: Seq<char>, payload: Payload<V>) -> bool {
    &&& step matches StoreStep::Call(StoreRequest::Update { table: t, id: i, payload: p })
    &&& t == table
    &&& i@ == id
    &&& p == payload
}

/// A step that ends the operation with these rows.
pub open spec fn finishes_with_rows<V>(step: StoreStep<V>, rows: Seq<serde_json::Value>) -> bool {
    &&& step matches StoreStep::Finished(Ok(StoreOutcome::Rows(found)))
    &&& found@ == rows
}

/// How a pending store operation moves on when `reply` comes back.
pub open spec fn resumes<V>(
    task: StoreTask<V>,
    reply: StoreReply,
    next: StoreTask<V>,
    step: StoreStep<V>,
) -> bool {
    match task {
        StoreTask::Lookup { table, payload } => match reply {
            StoreReply::Selected(Ok(rows)) => if rows@.len() == 0 {
                next == StoreTask::<V>::Inserting { table } && step == StoreStep::Call(
                    StoreRequest::Insert { table, payload },
                )
            } else {
                match row_id(rows@[0]) {
                    Some(id) => if id.len() > 0 {
                        updating(next, table, id) && updates(step, table, id, payload)
                    } else {
                        next is Done && fails_with(step, missing_id())
                    },
                    None => next is Done && fails_with(step, missing_id()),
                }
            },
            StoreReply::Selected(Err(e)) => next is Done && fails_with(
                step,
                query_failed(table, e@),
            ),
            _ => next is Done && fails_with(step, unexpected_reply()),
        },
        StoreTask::Inserting { table } => match reply {
            StoreReply::Inserted(Ok(raw)) => {
                let id = strip_char(raw@, '"');
                if id.len() > 0 {
                    refetching(next, table, id) && selects_id(step, table, id)
                } else {
                    next is Done && fails_with(step, missing_id())
                }
            },
            StoreReply::Inserted(Err(e)) => next is Done && fails_with(
                step,
                "failed to insert into "@ + table.spec_name() + ": "@ + e@,
            ),
            _ => next is Done && fails_with(step, unexpected_reply()),
        },
        StoreTask::Updating { table, id } => match reply {
            StoreReply::Updated(Ok(())) => refetching(next, table, id@) && selects_id(
                step,
                table,
                id@,
            ),
            StoreReply::Updated(Err(e)) => next is Done && fails_with(
                step,
                "failed to update "@ + table.spec_entity() + ": "@ + e@,
            ),
            _ => next is Done && fails_with(step, unexpected_reply()),
        },
        StoreTask::Refetching { table, id } => match reply {
            StoreReply::Selected(Ok(rows)) => next is Done && if rows@.len() == 0 {
                fails_with(step, table.spec_name() + " record "@ + id@ + " was not found"@)
            } else if has_id(rows@[0]) {
                step == StoreStep::<V>::Finished(Ok(StoreOutcome::Row(rows@[0])))
            } else {
                fails_with(step, missing_id())
            },
            StoreReply::Selected(Err(e)) => next is Done && fails_with(
                step,
                query_failed(table, e@),
            ),
            _ => next is Done && fails_with(step, unexpected_reply()),
        },
        StoreTask::Listing { search } => match reply {
            StoreReply::Selected(Ok(rows)) => next is Done && finishes_with_rows(
                step,
                accounts_found(rows@, opt_view(search)),
            ),
            StoreReply::Selected(Err(e)) => next is Done && fails_with(
                step,
                "failed to list accounts: "@ + e@,
            ),
            _ => next is Done && fails_with(step, unexpected_reply()),
        },
        StoreTask::Done => next is Done && fails_with(step, nothing_pending()),
    }
}

/// The start of a transaction insert.
pub open spec fn transaction_start<V>(input: CreateTransactionInput, embedding: Option<V>) -> (
    StoreTask<V>,
    StoreStep<V>,
) {
    (
        StoreTask::Inserting { table: Table::Transactions },
        StoreStep::Call(
            StoreRequest::Insert {
                table: Table::Transactions,
                payload: Payload::Transaction(input, embedding),
            },
        ),
    )
}

/// A task waiting for the read of a category by name, holding the row to
/// write.
pub open spec fn looks_up_category<V>(
    task: StoreTask<V>,
    input: UpsertCategoryInput,
    embedding: Option<V>,
) -> bool {
    &&& task matches StoreTask::Lookup { table, payload }
    &&& table == Table::Categories
    &&& payload matches Payload::Category(rec)
    &&& category_record_of(input, embedding, rec)
}

/// A task waiting for the read of an account by natural key.
pub open spec fn account_lookup<V>(input: UpsertAccountInput) -> StoreTask<V> {
    StoreTask::Lookup { table: Table::Accounts, payload: Payload::Account(input) }
}

/// A task waiting for an account listing.
pub open spec fn listing<V>(search: Option<String>) -> StoreTask<V> {
    StoreTask::Listing { search }
}

fn fail<V>(msg: String) -> (r: (StoreTask<V>, StoreStep<V>))
    ensures
        r.0 is Done,
        fails_with(r.1, msg@),
{
    (StoreTask::Done, StoreStep::Finished(Err(msg)))
}

fn select_id<V>(table: Table, id: String) -> (r: (StoreTask<V>, StoreStep<V>))
    ensures
        refetching(r.0, table, id@),
        selects_id(r.1, table, id@),
{
    let mut filters: Vec<(String, String)> = Vec::new();
    filters.push((String::from_str("id"), id.clone()));
    assert(pairs_view(filters@) =~= seq![("id"@, id@)]);
    (
        StoreTask::Refetching { table, id },
        StoreStep::Call(
            StoreRequest::Select { table, filters, order_by_name: false, limit: Some(1) },
        ),
    )
}

impl<V> StoreTask<V> {
    /// Appends a transaction: one insert, then a read of the new row.
    pub fn insert_transaction(input: CreateTransactionInput, embedding: Option<V>) -> (r: (
        StoreTask<V>,
        StoreStep<V>,
    ))
        ensures
            r == transaction_start(input, embedding),
    {
        (
            StoreTask::Inserting { table: Table::Transactions },
            StoreStep::Call(
                StoreRequest::Insert {
                    table: Table::Transactions,
                    payload: Payload::Transaction(input, embedding),
                },
            ),
        )
    }

    /// Creates or updates a category keyed by its name; starts with the
    /// read by name.
    pub fn upsert_category(input: UpsertCategoryInput, embedding: Option<V>) -> (r: (
        StoreTask<V>,
        StoreStep<V>,
    ))
        ensures
            looks_up_category(r.0, input, embedding),
            selects(r.1, Table::Categories, seq![("name"@, input.name@)], false, Some(1u32)),
    {
        let mut filters: Vec<(String, String)> = Vec::new();
        filters.push((String::from_str("name"), input.name.clone()));
        assert(pairs_view(filters@) =~= seq![("name"@, input.name@)]);
        let rec = category_record(input, embedding);
        (
            StoreTask::Lookup { table: Table::Categories, payload: Payload::Category(rec) },
            StoreStep::Call(
                StoreRequest::Select {
                    table: Table::Categories,
                    filters,
                    order_by_name: false,
                    limit: Some(1),
                },
            ),
        )
    }

    /// Creates or updates an account keyed by name and type; starts with
    /// the read by that key.
    pub fn upsert_account(input: UpsertAccountInput) -> (r: (StoreTask<V>, StoreStep<V>))
        ensures
            r.0 == account_lookup::<V>(input),
            selects(r.1, Table::Accounts, account_key(input), false, Some(1u32)),
    {
        let mut filters: Vec<(String, String)> = Vec::new();
        filters.push((String::from_str("name"), input.name.clone()));
        filters.push((String::from_str("type"), String::from_str(input.account_type.as_ref())));
        assert(pairs_view(filters@) =~= account_key(input));
        (
            StoreTask::Lookup { table: Table::Accounts, payload: Payload::Account(input) },
            StoreStep::Call(
                StoreRequest::Select {
                    table: Table::Accounts,
                    filters,
                    order_by_name: false,
                    limit: Some(1),
                },
            ),
        )
    }

    /// Lists accounts ordered by name, of one type if asked; the search
    /// text is applied to the rows that come back.
    pub fn list_accounts(params: ListAccountsInput) -> (r: (StoreTask<V>, StoreStep<V>))
        ensures
            r.0 == listing::<V>(params.search),
            selects(r.1, Table::Accounts, list_filters(params.account_type), true, None),
    {
        let mut filters: Vec<(String, String)> = Vec::new();
        match params.account_type {
            Some(t) => {
                filters.push((String::from_str("type"), String::from_str(t.as_ref())));
            },
            None => {},
        }
        assert(pairs_view(filters@) =~= list_filters(params.account_type));
        (
            StoreTask::Listing { search: params.search },
            StoreStep::Call(
                StoreRequest::Select {
                    table: Table::Accounts,
                    filters,
                    order_by_name: true,
                    limit: None,
                },
            ),
        )
    }

    /// Moves the operation on with the reply to its pending request.
    pub fn resume(self, reply: StoreReply) -> (r: (StoreTask<V>, StoreStep<V>))
        ensures
            resumes(self, reply, r.0, r.1),
    {
        match self {
            StoreTask::Lookup { table, payload } => match reply {
                StoreReply::Selected(Ok(rows)) => {
                    if rows.len() == 0 {
                        (
                            StoreTask::Inserting { table },
                            StoreStep::Call(StoreRequest::Insert { table, payload }),
                        )
                    } else {
                        match extract_id(&rows[0]) {
                            Some(id) => {
                                if id.as_str().is_empty() {
                                    fail(String::from_str("row missing id column"))
                                } else {
                                    (
                                        StoreTask::Updating { table, id: id.clone() },
                                        StoreStep::Call(StoreRequest::Update { table, id, payload }),
                                    )
                                }
                            },
                            None => fail(String::from_str("row missing id column")),
                        }
                    }
                },
                StoreReply::Selected(Err(e)) => fail(
                    join4("failed to query ", table.name(), ": ", e.as_str()),
                ),
                _ => fail(String::from_str("unexpected reply from the row store")),
            },
            StoreTask::Inserting { table } => match reply {
                StoreReply::Inserted(Ok(raw)) => {
                    let id = normalize_id(raw.as_str());
                    if id.as_str().is_empty() {
                        fail(String::from_str("row missing id column"))
                    } else {
                        select_id(table, id)
                    }
                },
                StoreReply::Inserted(Err(e)) => fail(
                    join4("failed to insert into ", table.name(), ": ", e.as_str()),
                ),
                _ => fail(String::from_str("unexpected reply from the row store")),
            },
            StoreTask::Updating { table, id } => match reply {
                StoreReply::Updated(Ok(())) => select_id(table, id),
                StoreReply::Updated(Err(e)) => fail(
                    join4("failed to update ", table.entity(), ": ", e.as_str()),
                ),
                _ => fail(String::from_str("unexpected reply from the row store")),
            },
            StoreTask::Refetching { table, id } => match reply {
                StoreReply::Selected(Ok(rows)) => {
                    if rows.len() == 0 {
                        fail(join3(table.name(), " record ", id.as_str()).concat(" was not found"))
                    } else if row_has_id(&rows[0]) {
                        (StoreTask::Done, StoreStep::Finished(Ok(StoreOutcome::Row(rows[0].clone()))))
                    } else {
                        fail(String::from_str("row missing id column"))
                    }
                },
                StoreReply::Selected(Err(e)) => fail(
                    join4("failed to query ", table.name(), ": ", e.as_str()),
                ),
                _ => fail(String::from_str("unexpected reply from the row store")),
            },
            StoreTask::Listing { search } => match reply {
                StoreReply::Selected(Ok(rows)) => {
                    let found = filter_accounts(rows, &search);
                    (StoreTask::Done, StoreStep::Finished(Ok(StoreOutcome::Rows(found))))
                },
                StoreReply::Selected(Err(e)) => fail(
                    String::from_str("failed to list accounts: ").concat(e.as_str()),
                ),
                _ => fail(String::from_str("unexpected reply from the row store")),
            },
            StoreTask::Done => fail(String::from_str("no row store request is pending")),
        }
    }
}

/// An upsert writes by natural key: when the read by key finds a row with
/// a non-empty identifier, that row is updated with the new values and
/// nothing is inserted; a found row without one is an internal error; when
/// the read finds no row, the row is inserted.
pub proof fn lemma_upsert_updates_existing<V>(
    table: Table,
    payload: Payload<V>,
    rows: Vec<serde_json::Value>,
    next: StoreTask<V>,
    step: StoreStep<V>,
)
    requires
        resumes((StoreTask::Lookup { table, payload }), StoreReply::Selected(Ok(rows)), next, step),
    ensures
        rows@.len() > 0 && has_id(rows@[0]) ==> updates(
            step,
            table,
            row_id(rows@[0]).unwrap(),
            payload,
        ),
        rows@.len() > 0 && !has_id(rows@[0]) ==> fails_with(step, missing_id()),
        rows@.len() == 0 ==> step == StoreStep::Call((StoreRequest::Insert { table, payload })),
{
}

/// Every row a store operation returns as its single result carries a
/// non-empty identifier: a written row without one ends in an error.
pub proof fn lemma_returned_row_has_id<V>(
    task: StoreTask<V>,
    reply: StoreReply,
    next: StoreTask<V>,
    step: StoreStep<V>,
    row: serde_json::Value,
)
    requires
        resumes(task, reply, next, step),
        step == StoreStep::<V>::Finished(Ok(StoreOutcome::Row(row))),
    ensures
        has_id(row),
{
}

} // verus!
