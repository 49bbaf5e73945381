use exaspoon_db_mcp::config::AppConfig;
use exaspoon_db_mcp::models::{
    AccountType, CategoryKind, CreateTransactionInput, ListAccountsInput, TransactionDirection,
    UpsertAccountInput, UpsertCategoryInput,
};
use exaspoon_db_mcp::rows::{extract_id, filter_accounts, normalize_id};
use exaspoon_db_mcp::store::{
    category_record, resolve_limit, rpc_failure_message, rpc_status_ok, Payload, SearchTarget,
    StoreOutcome, StoreReply, StoreRequest, StoreSettings, StoreStep, StoreTask, Table, TlsBackend,
};
use serde_json::Value;

type Vector = Vec<f32>;

fn row(pairs: &[(&str, &str)]) -> Value {
    let mut m = serde_json::Map::new();
    for (k, v) in pairs {
        m.insert(k.to_string(), Value::String(v.to_string()));
    }
    Value::Object(m)
}

fn opt(v: &Option<String>) -> Value {
    match v {
        Some(s) => Value::String(s.clone()),
        None => Value::Null,
    }
}

fn vector(v: &Option<Vector>) -> Value {
    match v {
        Some(xs) => Value::Array(xs.iter().map(|x| Value::from(*x as f64)).collect()),
        None => Value::Null,
    }
}

fn columns(payload: &Payload<Vector>) -> Vec<(String, Value)> {
    match payload {
        Payload::Transaction(input, embedding) => vec![
            ("account_id".to_string(), Value::String(input.account_id.clone())),
            ("amount".to_string(), Value::Number(input.amount.clone())),
            ("currency".to_string(), Value::String(input.currency.clone())),
            ("direction".to_string(), Value::String(input.direction.as_ref().to_string())),
            ("occurred_at".to_string(), Value::String(input.occurred_at.clone())),
            ("description".to_string(), opt(&input.description)),
            ("raw_source".to_string(), opt(&input.raw_source)),
            ("embedding".to_string(), vector(embedding)),
        ],
        Payload::Category(rec) => vec![
            ("name".to_string(), Value::String(rec.name.clone())),
            ("kind".to_string(), Value::String(rec.kind.as_ref().to_string())),
            ("description".to_string(), Value::String(rec.description.clone())),
            ("embedding".to_string(), vector(&rec.embedding)),
        ],
        Payload::Account(input) => vec![
            ("name".to_string(), Value::String(input.name.clone())),
            ("type".to_string(), Value::String(input.account_type.as_ref().to_string())),
            ("currency".to_string(), Value::String(input.currency.clone())),
            ("network".to_string(), opt(&input.network)),
            ("institution".to_string(), opt(&input.institution)),
        ],
    }
}

/// An in-memory row store that answers requests as the REST store does:
/// an insert hands back only the quoted identifier.
#[derive(Default)]
struct MemoryStore {
    transactions: Vec<Value>,
    categories: Vec<Value>,
    accounts: Vec<Value>,
    issued: u32,
    requests: Vec<String>,
    fail_next: Option<String>,
}

impl MemoryStore {
    fn table(&mut self, t: Table) -> &mut Vec<Value> {
        match t {
            Table::Transactions => &mut self.transactions,
            Table::Categories => &mut self.categories,
            Table::Accounts => &mut self.accounts,
        }
    }

    fn perform(&mut self, req: StoreRequest<Vector>) -> StoreReply {
        let failure = self.fail_next.take();
        match req {
            StoreRequest::Select { table, filters, order_by_name, limit } => {
                self.requests.push(format!("select {}", table.name()));
                if let Some(e) = failure {
                    return StoreReply::Selected(Err(e));
                }
                let mut rows: Vec<Value> = self
                    .table(table)
                    .iter()
                    .filter(|r| filters.iter().all(|(k, v)| r.get(k).and_then(Value::as_str) == Some(v)))
                    .cloned()
                    .collect();
                if order_by_name {
                    rows.sort_by(|a, b| {
                        let x = a.get("name").and_then(Value::as_str).unwrap_or("");
                        let y = b.get("name").and_then(Value::as_str).unwrap_or("");
                        x.cmp(y)
                    });
                }
                if let Some(n) = limit {
                    rows.truncate(n as usize);
                }
                StoreReply::Selected(Ok(rows))
            }
            StoreRequest::Insert { table, payload } => {
                self.requests.push(format!("insert {}", table.name()));
                if let Some(e) = failure {
                    return StoreReply::Inserted(Err(e));
                }
                self.issued += 1;
                let id = format!("{}-{}", table.entity(), self.issued);
                let mut m = serde_json::Map::new();
                m.insert("id".to_string(), Value::String(id.clone()));
                for (k, v) in columns(&payload) {
                    m.insert(k, v);
                }
                self.table(table).push(Value::Object(m));
                StoreReply::Inserted(Ok(format!("\"{}\"", id)))
            }
            StoreRequest::Update { table, id, payload } => {
                self.requests.push(format!("update {} {}", table.name(), id));
                if let Some(e) = failure {
                    return StoreReply::Updated(Err(e));
                }
                for r in self.table(table).iter_mut() {
                    if r.get("id").and_then(Value::as_str) == Some(id.as_str()) {
                        if let Value::Object(m) = r {
                            for (k, v) in columns(&payload) {
                                m.insert(k, v);
                            }
                        }
                    }
                }
                StoreReply::Updated(Ok(()))
            }
        }
    }

    fn run(&mut self, start: (StoreTask<Vector>, StoreStep<Vector>)) -> Result<StoreOutcome, String> {
        let (mut task, mut step) = start;
        loop {
            match step {
                StoreStep::Call(req) => {
                    let reply = self.perform(req);
                    let next = task.resume(reply);
                    task = next.0;
                    step = next.1;
                }
                StoreStep::Finished(r) => return r,
            }
        }
    }
}

fn category(name: &str, description: Option<&str>) -> UpsertCategoryInput {
    UpsertCategoryInput {
        name: name.to_string(),
        kind: Some(CategoryKind::Expense),
        description: description.map(|d| d.to_string()),
    }
}

fn account(name: &str, t: AccountType) -> UpsertAccountInput {
    UpsertAccountInput {
        name: name.to_string(),
        account_type: t,
        currency: "USD".to_string(),
        network: None,
        institution: Some("Test Bank".to_string()),
    }
}

fn single(r: Result<StoreOutcome, String>) -> Value {
    match r {
        Ok(StoreOutcome::Row(v)) => v,
        other => panic!("expected one row, got {:?}", other),
    }
}

fn many(r: Result<StoreOutcome, String>) -> Vec<Value> {
    match r {
        Ok(StoreOutcome::Rows(v)) => v,
        other => panic!("expected rows, got {:?}", other),
    }
}

fn field(v: &Value, k: &str) -> Option<String> {
    v.get(k).and_then(Value::as_str).map(|s| s.to_string())
}

#[test]
fn resolve_limit_defaults_and_clamps() {
    assert_eq!(resolve_limit(None), 5);
    assert_eq!(resolve_limit(Some(0)), 1);
    assert_eq!(resolve_limit(Some(100)), 25);
    assert_eq!(resolve_limit(Some(7)), 7);
    assert_eq!(resolve_limit(Some(1)), 1);
    assert_eq!(resolve_limit(Some(25)), 25);
    assert_eq!(resolve_limit(Some(26)), 25);
    assert_eq!(resolve_limit(Some(u32::MAX)), 25);
}

fn config(url: &str) -> AppConfig {
    AppConfig::from_values(
        Some(url.to_string()),
        Some("test-service-key".to_string()),
        Some("test-openai-key".to_string()),
        None,
        None,
        None,
    )
    .unwrap()
}

#[test]
fn settings_build_rest_and_rpc_bases() {
    let s = StoreSettings::new(&config("https://test.supabase.co//"), None, None, None);
    assert_eq!(s.rest_base, "https://test.supabase.co/rest/v1");
    assert_eq!(s.rpc_base, "https://test.supabase.co/rest/v1/rpc");
    assert_eq!(s.schema, "public");
    assert_eq!(s.service_key, "test-service-key");
    assert_eq!(s.tls, TlsBackend::Rustls);
    assert!(!s.accept_invalid_certs);
}

#[test]
fn settings_follow_switches() {
    let s = StoreSettings::new(
        &config("https://test.supabase.co/"),
        Some("TRUE".to_string()),
        Some("true".to_string()),
        Some("True".to_string()),
    );
    assert_eq!(s.rest_base, "https://test.supabase.co");
    assert_eq!(s.rpc_base, "https://test.supabase.co/rpc");
    assert_eq!(s.tls, TlsBackend::Native);
    assert!(s.accept_invalid_certs);
    let off = StoreSettings::new(
        &config("https://a.b"),
        Some("yes".to_string()),
        Some("1".to_string()),
        Some("false".to_string()),
    );
    assert_eq!(off.tls, TlsBackend::Rustls);
    assert!(!off.accept_invalid_certs);
    assert_eq!(off.rest_base, "https://a.b/rest/v1");
}

#[test]
fn rpc_headers_carry_key_and_schema() {
    let s = StoreSettings::new(&config("https://x.co"), None, None, None);
    let h = s.rpc_headers();
    let expected = vec![
        ("apikey", "test-service-key"),
        ("Authorization", "Bearer test-service-key"),
        ("Content-Type", "application/json"),
        ("Accept", "application/json"),
        ("Accept-Profile", "public"),
        ("Content-Profile", "public"),
    ];
    assert_eq!(h.len(), expected.len());
    for (got, want) in h.iter().zip(expected.iter()) {
        assert_eq!(got.0, want.0);
        assert_eq!(got.1, want.1);
    }
}

#[test]
fn search_request_targets_stored_function() {
    let s = StoreSettings::new(&config("https://x.co"), None, None, None);
    let r = s.search_request(SearchTarget::Transactions, vec![0.5f32], Some(100));
    assert_eq!(r.url, "https://x.co/rest/v1/rpc/search_similar_transactions");
    assert_eq!(r.function, "search_similar_transactions");
    assert_eq!(r.match_count, 25);
    assert_eq!(r.query_embedding, vec![0.5f32]);
    let c = s.search_request(SearchTarget::Categories, vec![0.1f32], None);
    assert_eq!(c.url, "https://x.co/rest/v1/rpc/search_similar_categories");
    assert_eq!(c.match_count, 5);
}

#[test]
fn rpc_status_and_failure_text() {
    assert!(rpc_status_ok(200));
    assert!(rpc_status_ok(204));
    assert!(!rpc_status_ok(199));
    assert!(!rpc_status_ok(300));
    assert!(!rpc_status_ok(404));
    assert_eq!(
        rpc_failure_message("search_similar_transactions", "404 Not Found", "missing"),
        "RPC search_similar_transactions failed (404 Not Found): missing"
    );
}

#[test]
fn ids_are_read_and_unquoted() {
    assert_eq!(extract_id(&row(&[("id", "acct-1")])), Some("acct-1".to_string()));
    assert_eq!(extract_id(&row(&[("name", "x")])), None);
    let mut m = serde_json::Map::new();
    m.insert("id".to_string(), Value::from(7));
    assert_eq!(extract_id(&Value::Object(m)), None);
    assert_eq!(normalize_id("\"abc\""), "abc");
    assert_eq!(normalize_id("abc"), "abc");
}

#[test]
fn account_search_keeps_matching_names() {
    let rows = vec![
        row(&[("id", "acct-1"), ("name", "Test Account 1")]),
        row(&[("id", "acct-2"), ("name", "Test Account 2")]),
        row(&[("id", "acct-3"), ("name", "Other")]),
    ];
    let found = filter_accounts(rows.clone(), &Some("Test".to_string()));
    assert_eq!(found.len(), 2);
    assert_eq!(field(&found[0], "id").as_deref(), Some("acct-1"));
    assert_eq!(field(&found[1], "id").as_deref(), Some("acct-2"));
    let lower = filter_accounts(rows.clone(), &Some("test".to_string()));
    assert_eq!(lower, found);
    let padded = filter_accounts(rows.clone(), &Some("  ACCOUNT 2 ".to_string()));
    assert_eq!(padded.len(), 1);
    assert_eq!(field(&padded[0], "id").as_deref(), Some("acct-2"));
}

#[test]
fn account_search_blank_or_absent_keeps_all() {
    let rows = vec![row(&[("name", "A")]), row(&[("id", "x")])];
    assert_eq!(filter_accounts(rows.clone(), &None), rows);
    assert_eq!(filter_accounts(rows.clone(), &Some("   ".to_string())), rows);
    assert_eq!(filter_accounts(rows.clone(), &Some(String::new())), rows);
}

#[test]
fn account_search_skips_rows_without_name() {
    let mut m = serde_json::Map::new();
    m.insert("name".to_string(), Value::from(3));
    let rows = vec![row(&[("id", "x")]), Value::Object(m), row(&[("name", "alpha")])];
    let found = filter_accounts(rows, &Some("a".to_string()));
    assert_eq!(found, vec![row(&[("name", "alpha")])]);
}

#[test]
fn category_record_defaults() {
    let rec = category_record::<Vector>(
        UpsertCategoryInput { name: "Food".to_string(), kind: None, description: None },
        None,
    );
    assert_eq!(rec.kind, CategoryKind::Expense);
    assert_eq!(rec.description, "Food");
    let rec2 = category_record(category("Food", Some("Dining")), Some(vec![1.0f32]));
    assert_eq!(rec2.description, "Dining");
    assert_eq!(rec2.embedding, Some(vec![1.0f32]));
}

#[test]
fn insert_transaction_returns_full_row() {
    let mut db = MemoryStore::default();
    let input = CreateTransactionInput {
        account_id: "acct-1".to_string(),
        amount: serde_json::Number::from_f64(42.0).unwrap(),
        currency: "USD".to_string(),
        direction: TransactionDirection::Expense,
        occurred_at: "2024-01-02T03:04:05Z".to_string(),
        description: Some("Coffee".to_string()),
        raw_source: None,
    };
    let row = single(db.run(StoreTask::insert_transaction(input, Some(vec![0.5f32]))));
    assert_eq!(field(&row, "id").as_deref(), Some("transaction-1"));
    assert_eq!(field(&row, "direction").as_deref(), Some("expense"));
    assert_eq!(row["embedding"][0], 0.5);
    assert_eq!(db.requests, vec!["insert transactions", "select transactions"]);
}

#[test]
fn upsert_category_twice_keeps_one_row() {
    let mut db = MemoryStore::default();
    let first = single(db.run(StoreTask::upsert_category(category("Food", Some("Groceries")), None)));
    let second = single(db.run(StoreTask::upsert_category(
        category("Food", Some("Food and dining expenses")),
        None,
    )));
    assert_eq!(db.categories.len(), 1);
    assert_eq!(field(&first, "id"), field(&second, "id"));
    assert_eq!(field(&second, "description").as_deref(), Some("Food and dining expenses"));
    assert_eq!(field(&db.categories[0], "description").as_deref(), Some("Food and dining expenses"));
    assert_eq!(
        db.requests,
        vec![
            "select categories",
            "insert categories",
            "select categories",
            "select categories",
            "update categories category-1",
            "select categories",
        ]
    );
}

#[test]
fn upsert_account_keys_on_name_and_type() {
    let mut db = MemoryStore::default();
    single(db.run(StoreTask::upsert_account(account("Checking", AccountType::Offchain))));
    single(db.run(StoreTask::upsert_account(account("Checking", AccountType::Onchain))));
    let mut changed = account("Checking", AccountType::Offchain);
    changed.currency = "EUR".to_string();
    let updated = single(db.run(StoreTask::upsert_account(changed)));
    assert_eq!(db.accounts.len(), 2);
    assert_eq!(field(&updated, "id").as_deref(), Some("account-1"));
    assert_eq!(field(&updated, "currency").as_deref(), Some("EUR"));
}

#[test]
fn list_accounts_pushes_type_and_filters_names() {
    let mut db = MemoryStore::default();
    db.accounts = vec![
        row(&[("id", "acct-2"), ("name", "Test Account 2"), ("type", "offchain")]),
        row(&[("id", "acct-1"), ("name", "Test Account 1"), ("type", "offchain")]),
        row(&[("id", "acct-3"), ("name", "Test Wallet"), ("type", "onchain")]),
        row(&[("id", "acct-4"), ("name", "Other"), ("type", "offchain")]),
    ];
    let params = ListAccountsInput {
        account_type: Some(AccountType::Offchain),
        search: Some("test".to_string()),
    };
    let rows = many(db.run(StoreTask::list_accounts(params)));
    let ids: Vec<Option<String>> = rows.iter().map(|r| field(r, "id")).collect();
    assert_eq!(ids, vec![Some("acct-1".to_string()), Some("acct-2".to_string())]);
    let all = many(db.run(StoreTask::list_accounts(ListAccountsInput::default())));
    assert_eq!(all.len(), 4);
    assert_eq!(field(&all[0], "name").as_deref(), Some("Other"));
}

#[test]
fn store_errors_carry_their_cause() {
    let mut db = MemoryStore::default();
    db.fail_next = Some("boom".to_string());
    let r = db.run(StoreTask::upsert_category(category("Food", None), None));
    assert_eq!(r.unwrap_err(), "failed to query categories: boom");

    let (task, _) = StoreTask::<Vector>::upsert_category(category("Food", None), None);
    let (task, step) = task.resume(StoreReply::Selected(Ok(vec![])));
    assert!(matches!(step, StoreStep::Call(StoreRequest::Insert { .. })));
    let (_, step) = task.resume(StoreReply::Inserted(Err("denied".to_string())));
    match step {
        StoreStep::Finished(Err(e)) => assert_eq!(e, "failed to insert into categories: denied"),
        other => panic!("unexpected {:?}", other),
    }

    let (task, _) = StoreTask::<Vector>::upsert_account(account("A", AccountType::Onchain));
    let (task, step) = task.resume(StoreReply::Selected(Ok(vec![row(&[("id", "acct-9")])])));
    assert!(matches!(&step, StoreStep::Call(StoreRequest::Update { id, .. }) if id == "acct-9"));
    let (_, step) = task.resume(StoreReply::Updated(Err("locked".to_string())));
    assert!(matches!(step, StoreStep::Finished(Err(e)) if e == "failed to update account: locked"));
}

#[test]
fn store_rejects_rows_without_id_and_lost_rows() {
    let (task, _) = StoreTask::<Vector>::upsert_category(category("Food", None), None);
    let (_, step) = task.resume(StoreReply::Selected(Ok(vec![row(&[("name", "Food")])])));
    assert!(matches!(step, StoreStep::Finished(Err(e)) if e == "row missing id column"));

    let (task, _) = StoreTask::<Vector>::upsert_category(category("Food", None), None);
    let (task, _) = task.resume(StoreReply::Selected(Ok(vec![])));
    let (task, step) = task.resume(StoreReply::Inserted(Ok("\"cat-9\"".to_string())));
    match &step {
        StoreStep::Call(StoreRequest::Select { filters, limit, .. }) => {
            assert_eq!(filters, &vec![("id".to_string(), "cat-9".to_string())]);
            assert_eq!(*limit, Some(1));
        }
        other => panic!("unexpected {:?}", other),
    }
    let (task, step) = task.resume(StoreReply::Selected(Ok(vec![])));
    assert!(matches!(step, StoreStep::Finished(Err(e)) if e == "categories record cat-9 was not found"));
    let (_, step) = task.resume(StoreReply::Selected(Ok(vec![])));
    assert!(matches!(step, StoreStep::Finished(Err(e)) if e == "no row store request is pending"));
}

#[test]
fn store_flags_mismatched_reply() {
    let (task, _) = StoreTask::<Vector>::list_accounts(ListAccountsInput::default());
    let (_, step) = task.resume(StoreReply::Updated(Ok(())));
    assert!(matches!(step, StoreStep::Finished(Err(e)) if e == "unexpected reply from the row store"));
    let (task, _) = StoreTask::<Vector>::list_accounts(ListAccountsInput::default());
    let (_, step) = task.resume(StoreReply::Selected(Err("down".to_string())));
    assert!(matches!(step, StoreStep::Finished(Err(e)) if e == "failed to list accounts: down"));
}

#[test]
fn written_row_without_id_is_an_error() {
    let (task, _) = StoreTask::<Vector>::upsert_category(category("Food", None), None);
    let (task, _) = task.resume(StoreReply::Selected(Ok(vec![])));
    let (task, _) = task.resume(StoreReply::Inserted(Ok("\"cat-1\"".to_string())));
    let (_, step) = task.resume(StoreReply::Selected(Ok(vec![row(&[("name", "Food")])])));
    assert!(matches!(step, StoreStep::Finished(Err(e)) if e == "row missing id column"));

    let (task, _) = StoreTask::<Vector>::upsert_account(account("A", AccountType::Onchain));
    let (task, _) = task.resume(StoreReply::Selected(Ok(vec![row(&[("id", "acct-1")])])));
    let (task, _) = task.resume(StoreReply::Updated(Ok(())));
    let (_, step) = task.resume(StoreReply::Selected(Ok(vec![row(&[("id", "")])])));
    assert!(matches!(step, StoreStep::Finished(Err(e)) if e == "row missing id column"));
}

#[test]
fn empty_identifiers_are_errors() {
    let (task, _) = StoreTask::<Vector>::upsert_category(category("Food", None), None);
    let (_, step) = task.resume(StoreReply::Selected(Ok(vec![row(&[("id", ""), ("name", "Food")])])));
    assert!(matches!(step, StoreStep::Finished(Err(e)) if e == "row missing id column"));

    let (task, _) = StoreTask::<Vector>::upsert_category(category("Food", None), None);
    let (task, _) = task.resume(StoreReply::Selected(Ok(vec![])));
    let (_, step) = task.resume(StoreReply::Inserted(Ok("\"\"".to_string())));
    assert!(matches!(step, StoreStep::Finished(Err(e)) if e == "row missing id column"));
}
