//! The tool gateway: the six tool operations, each as a short run of calls
//! to the embedding provider and to the row store.
//!
//! [`ToolCall`] validates a request, asks for at most one embedding, then
//! for one store operation, and wraps the result under its key. Every
//! failure of a collaborator becomes an internal error that names the
//! attempted action; a blank search query is rejected before any call.

use vstd::prelude::*;
use crate::embedding::{embed_text_of, text_to_embed};
use crate::models::{CreateTransactionInput, ListAccountsInput, SearchSimilarInput};
use crate::models::{UpsertAccountInput, UpsertCategoryInput};
use crate::rows::opt_view;
use crate::store::StoreOutcome;
use crate::text::{has_text, is_blank, trim};
use crate::text::{is_blank_text, trim_text};

verus! {

/// A tool call as it arrives, with its validated payload shape.
#[derive(Debug, Clone)]
pub enum ToolRequest {
    CreateTransaction(CreateTransactionInput),
    SearchTransactions(SearchSimilarInput),
    UpsertCategory(UpsertCategoryInput),
    SearchCategories(SearchSimilarInput),
    ListAccounts(ListAccountsInput),
    UpsertAccount(UpsertAccountInput),
}

/// Which tool a call is.
#[derive(Debug, Clone, Copy, PartialEq, Eq, Structural)]
pub enum ToolKind {
    CreateTransaction,
    SearchTransactions,
    UpsertCategory,
    SearchCategories,
    ListAccounts,
    UpsertAccount,
}

/// One operation of the row store, as the gateway asks for it.
#[derive(Debug, Clone)]
pub enum StoreCall<V> {
    InsertTransaction(CreateTransactionInput, Option<V>),
    UpsertCategory(UpsertCategoryInput, Option<V>),
    UpsertAccount(UpsertAccountInput),
    ListAccounts(ListAccountsInput),
    SearchTransactions(V, Option<u32>),
    SearchCategories(V, Option<u32>),
}

/// The answer of a collaborator, or the text of its failure.
#[derive(Debug)]
pub enum Reply<V> {
    Embedded(Result<V, String>),
    Stored(Result<StoreOutcome, String>),
}

/// The result of a tool, under its key.
#[derive(Debug, Clone)]
pub enum ToolOutput {
    Transaction(serde_json::Value),
    Category(serde_json::Value),
    Account(serde_json::Value),
    Matches(Vec<serde_json::Value>),
    Accounts(Vec<serde_json::Value>),
}

impl ToolOutput {
    pub open spec fn spec_key(self) -> Seq<char> {
        match self {
            ToolOutput::Transaction(_) => "transaction"@,
            ToolOutput::Category(_) => "category"@,
            ToolOutput::Account(_) => "account"@,
            ToolOutput::Matches(_) => "matches"@,
            ToolOutput::Accounts(_) => "accounts"@,
        }
    }

    /// The key the result is wrapped under.
    pub fn key(&self) -> (r: &'static str)
        ensures
            r@ == self.spec_key(),
    {
        match self {
            ToolOutput::Transaction(_) => "transaction",
            ToolOutput::Category(_) => "category",
            ToolOutput::Account(_) => "account",
            ToolOutput::Matches(_) => "matches",
            ToolOutput::Accounts(_) => "accounts",
        }
    }
}

/// A failed tool call: a payload the caller can correct, or an internal
/// failure with the attempted action and the underlying cause.
#[derive(Debug, Clone)]
pub enum ToolError {
    InvalidInput { field: String, message: String },
    Internal { action: String, details: String },
}

impl ToolError {
    pub open spec fn text(self) -> Seq<char> {
        match self {
            ToolError::InvalidInput { message, .. } => message@,
            ToolError::Internal { action, .. } => "Failed to "@ + action@,
        }
    }

    /// The message shown to the caller.
    pub fn message(&self) -> (r: String)
        ensures
            r@ == self.text(),
    {
        match self {
            ToolError::InvalidInput { message, .. } => message.clone(),
            ToolError::Internal { action, .. } => String::from_str("Failed to ").concat(
                action.as_str(),
            ),
        }
    }
}

/// The next move of a tool call.
#[derive(Debug)]
pub enum ToolStep<V> {
    /// Embed this text.
    Embed(String),
    /// Perform this store operation.
    Store(StoreCall<V>),
    /// The call has ended.
    Finished(Result<ToolOutput, ToolError>),
}

/// A tool call in progress, by what it waits for.
#[derive(Debug)]
pub enum ToolCall {
    /// The embedding; the request is kept to build the store operation.
    Embedding(ToolRequest),
    /// The store operation of a tool.
    Storing(ToolKind),
    /// Nothing: the call has ended.
    Done,
}

pub open spec fn kind_of(req: ToolRequest) -> ToolKind {
    match req {
        ToolRequest::CreateTransaction(_) => ToolKind::CreateTransaction,
        ToolRequest::SearchTransactions(_) => ToolKind::SearchTransactions,
        ToolRequest::UpsertCategory(_) => ToolKind::UpsertCategory,
        ToolRequest::SearchCategories(_) => ToolKind::SearchCategories,
        ToolRequest::ListAccounts(_) => ToolKind::ListAccounts,
        ToolRequest::UpsertAccount(_) => ToolKind::UpsertAccount,
    }
}

/// The query of a search.
pub open spec fn search_query(req: ToolRequest) -> Option<Seq<char>> {
    match req {
        ToolRequest::SearchTransactions(q) => Some(q.query@),
        ToolRequest::SearchCategories(q) => Some(q.query@),
        _ => None,
    }
}

/// A search whose query is empty or whitespace only.
pub open spec fn rejects(req: ToolRequest) -> bool {
    match req {
        ToolRequest::SearchTransactions(q) => is_blank(q.query@),
        ToolRequest::SearchCategories(q) => is_blank(q.query@),
        _ => false,
    }
}

/// The text a tool call embeds, if any: the trimmed description of a
/// transaction when it has one, the trimmed query of a search, the
/// description of a category or else its name, the name of an account.
pub open spec fn embed_text(req: ToolRequest) -> Option<Seq<char>> {
    match req {
        ToolRequest::CreateTransaction(i) => embed_text_of(opt_view(i.description)),
        ToolRequest::SearchTransactions(q) => if is_blank(q.query@) {
            None
        } else {
            Some(trim(q.query@))
        },
        ToolRequest::UpsertCategory(i) => match i.description {
            Some(d) => Some(d@),
            None => Some(i.name@),
        },
        ToolRequest::SearchCategories(q) => if is_blank(q.query@) {
            None
        } else {
            Some(trim(q.query@))
        },
        ToolRequest::ListAccounts(_) => None,
        ToolRequest::UpsertAccount(i) => Some(i.name@),
    }
}

/// The store operation of a call that embeds nothing: a transaction
/// without description text, or an account listing.
pub open spec fn store_call_unembedded<V>(req: ToolRequest) -> Option<StoreCall<V>> {
    match req {
        ToolRequest::CreateTransaction(i) => Some(StoreCall::InsertTransaction(i, None)),
        ToolRequest::ListAccounts(i) => Some(StoreCall::ListAccounts(i)),
        _ => None,
    }
}

/// The store operation of a call once its text is embedded as `v`. The
/// account embedding is computed and not stored.
pub open spec fn store_call_embedded<V>(req: ToolRequest, v: V) -> StoreCall<V> {
    match req {
        ToolRequest::CreateTransaction(i) => StoreCall::InsertTransaction(i, Some(v)),
        ToolRequest::SearchTransactions(q) => StoreCall::SearchTransactions(v, q.limit),
        ToolRequest::UpsertCategory(i) => StoreCall::UpsertCategory(i, Some(v)),
        ToolRequest::SearchCategories(q) => StoreCall::SearchCategories(v, q.limit),
        ToolRequest::ListAccounts(i) => StoreCall::ListAccounts(i),
        ToolRequest::UpsertAccount(i) => StoreCall::UpsertAccount(i),
    }
}

/// The action named when the embedding of a tool fails.
pub open spec fn embed_action(kind: ToolKind) -> Seq<char> {
    match kind {
        ToolKind::CreateTransaction => "generate transaction embedding"@,
        ToolKind::UpsertCategory => "generate category embedding"@,
        ToolKind::UpsertAccount => "generate account embedding"@,
        _ => "embed query text"@,
    }
}

/// The action named when the store operation of a tool fails.
pub open spec fn store_action(kind: ToolKind) -> Seq<char> {
    match kind {
        ToolKind::CreateTransaction => "insert transaction"@,
        ToolKind::SearchTransactions => "search similar transactions"@,
        ToolKind::UpsertCategory => "upsert category"@,
        ToolKind::SearchCategories => "search similar categories"@,
        ToolKind::ListAccounts => "list accounts"@,
        ToolKind::UpsertAccount => "upsert account"@,
    }
}

/// The result of a tool for what the store returned, when its shape fits.
pub open spec fn output_of(kind: ToolKind, outcome: StoreOutcome) -> Option<ToolOutput> {
    match (kind, outcome) {
        (ToolKind::CreateTransaction, StoreOutcome::Row(r)) => Some(ToolOutput::Transaction(r)),
        (ToolKind::UpsertCategory, StoreOutcome::Row(r)) => Some(ToolOutput::Category(r)),
        (ToolKind::UpsertAccount, StoreOutcome::Row(r)) => Some(ToolOutput::Account(r)),
        (ToolKind::SearchTransactions, StoreOutcome::Rows(r)) => Some(ToolOutput::Matches(r)),
        (ToolKind::SearchCategories, StoreOutcome::Rows(r)) => Some(ToolOutput::Matches(r)),
        (ToolKind::ListAccounts, StoreOutcome::Rows(r)) => Some(ToolOutput::Accounts(r)),
        _ => None,
    }
}

/// A step that ends the call with an internal error.
pub open spec fn fails_internally<V>(step: ToolStep<V>, action: Seq<char>, details: Seq<char>) -> bool {
    &&& step matches ToolStep::Finished(Err(ToolError::Internal { action: a, details: d }))
    &&& a@ == action
    &&& d@ == details
}

/// A step that rejects the call for its `query` field.
pub open spec fn rejects_query<V>(step: ToolStep<V>) -> bool {
    &&& step matches ToolStep::Finished(Err(ToolError::InvalidInput { field, message }))
    &&& field@ == "query"@
    &&& message@ == "query must not be empty"@
}

/// A step that asks for the embedding of `text`.
pub open spec fn embeds<V>(step: ToolStep<V>, text: Seq<char>) -> bool {
    step matches ToolStep::Embed(t) && t@ == text
}

/// The text of a reply that does not answer the pending request.
pub open spec fn unexpected_reply() -> Seq<char> {
    "unexpected reply"@
}

/// How a tool call begins.
pub open spec fn starts<V>(req: ToolRequest, call: ToolCall, step: ToolStep<V>) -> bool {
    if rejects(req) {
        call is Done && rejects_query(step)
    } else {
        match embed_text(req) {
            Some(t) => call == ToolCall::Embedding(req) && embeds(step, t),
            None => {
                &&& call == ToolCall::Storing(kind_of(req))
                &&& store_call_unembedded::<V>(req) matches Some(c)
                &&& step == ToolStep::Store(c)
            },
        }
    }
}

/// How a pending tool call moves on when `reply` comes back.
pub open spec fn resumes<V>(call: ToolCall, reply: Reply<V>, next: ToolCall, step: ToolStep<V>) -> bool {
    match call {
        ToolCall::Embedding(req) => match reply {
            Reply::Embedded(Ok(v)) => next == ToolCall::Storing(kind_of(req)) && step
                == ToolStep::Store(store_call_embedded(req, v)),
            Reply::Embedded(Err(e)) => next is Done && fails_internally(
                step,
                embed_action(kind_of(req)),
                e@,
            ),
            Reply::Stored(_) => next is Done && fails_internally(
                step,
                embed_action(kind_of(req)),
                unexpected_reply(),
            ),
        },
        ToolCall::Storing(kind) => next is Done && match reply {
            Reply::Stored(Ok(outcome)) => match output_of(kind, outcome) {
                Some(out) => step == ToolStep::<V>::Finished(Ok(out)),
                None => fails_internally(step, store_action(kind), unexpected_reply()),
            },
            Reply::Stored(Err(e)) => fails_internally(step, store_action(kind), e@),
            Reply::Embedded(_) => fails_internally(step, store_action(kind), unexpected_reply()),
        },
        ToolCall::Done => next is Done && fails_internally(
            step,
            "resume tool call"@,
            "no request is pending"@,
        ),
    }
}

fn internal<V>(action: &str, details: String) -> (r: (ToolCall, ToolStep<V>))
    ensures
        r.0 is Done,
        fails_internally(r.1, action@, details@),
{
    (
        ToolCall::Done,
        ToolStep::Finished(Err(ToolError::Internal { action: String::from_str(action), details })),
    )
}

fn embed_action_of(kind: ToolKind) -> (r: &'static str)
    ensures
        r@ == embed_action(kind),
{
    match kind {
        ToolKind::CreateTransaction => "generate transaction embedding",
        ToolKind::UpsertCategory => "generate category embedding",
        ToolKind::UpsertAccount => "generate account embedding",
        _ => "embed query text",
    }
}

fn store_action_of(kind: ToolKind) -> (r: &'static str)
    ensures
        r@ == store_action(kind),
{
    match kind {
        ToolKind::CreateTransaction => "insert transaction",
        ToolKind::SearchTransactions => "search similar transactions",
        ToolKind::UpsertCategory => "upsert category",
        ToolKind::SearchCategories => "search similar categories",
        ToolKind::ListAccounts => "list accounts",
        ToolKind::UpsertAccount => "upsert account",
    }
}

fn kind(req: &ToolRequest) -> (r: ToolKind)
    ensures
        r == kind_of(*req),
{
    match req {
        ToolRequest::CreateTransaction(_) => ToolKind::CreateTransaction,
        ToolRequest::SearchTransactions(_) => ToolKind::SearchTransactions,
        ToolRequest::UpsertCategory(_) => ToolKind::UpsertCategory,
        ToolRequest::SearchCategories(_) => ToolKind::SearchCategories,
        ToolRequest::ListAccounts(_) => ToolKind::ListAccounts,
        ToolRequest::UpsertAccount(_) => ToolKind::UpsertAccount,
    }
}

/// Begins a search: rejects a blank query, else embeds the trimmed query.
fn start_search<V>(req: ToolRequest, query: &str) -> (r: (ToolCall, ToolStep<V>))
    requires
        search_query(req) == Some(query@),
    ensures
        starts(req, r.0, r.1),
{
    if is_blank_text(query) {
        (
            ToolCall::Done,
            ToolStep::Finished(
                Err(
                    ToolError::InvalidInput {
                        field: String::from_str("query"),
                        message: String::from_str("query must not be empty"),
                    },
                ),
            ),
        )
    } else {
        let text = trim_text(query).to_owned();
        (ToolCall::Embedding(req), ToolStep::Embed(text))
    }
}

impl ToolCall {
    /// Begins a tool call: its first step, and what it then waits for.
    pub fn start<V>(req: ToolRequest) -> (r: (ToolCall, ToolStep<V>))
        ensures
            starts(req, r.0, r.1),
    {
        match req {
            ToolRequest::CreateTransaction(input) => match text_to_embed(&input.description) {
                Some(text) => (
                    ToolCall::Embedding(ToolRequest::CreateTransaction(input)),
                    ToolStep::Embed(text),
                ),
                None => (
                    ToolCall::Storing(ToolKind::CreateTransaction),
                    ToolStep::Store(StoreCall::InsertTransaction(input, None)),
                ),
            },
            ToolRequest::SearchTransactions(q) => {
                let query = q.query.clone();
                start_search(ToolRequest::SearchTransactions(q), query.as_str())
            },
            ToolRequest::SearchCategories(q) => {
                let query = q.query.clone();
                start_search(ToolRequest::SearchCategories(q), query.as_str())
            },
            ToolRequest::UpsertCategory(input) => {
                let text = match &input.description {
                    Some(d) => d.clone(),
                    None => input.name.clone(),
                };
                (ToolCall::Embedding(ToolRequest::UpsertCategory(input)), ToolStep::Embed(text))
            },
            ToolRequest::ListAccounts(input) => (
                ToolCall::Storing(ToolKind::ListAccounts),
                ToolStep::Store(StoreCall::ListAccounts(input)),
            ),
            ToolRequest::UpsertAccount(input) => {
                let text = input.name.clone();
                (ToolCall::Embedding(ToolRequest::UpsertAccount(input)), ToolStep::Embed(text))
            },
        }
    }

    /// Moves the call on with the reply to its pending request.
    pub fn resume<V>(self, reply: Reply<V>) -> (r: (ToolCall, ToolStep<V>))
        ensures
            resumes(self, reply, r.0, r.1),
    {
        match self {
            ToolCall::Embedding(req) => {
                let k = kind(&req);
                match reply {
                    Reply::Embedded(Ok(v)) => {
                        let call = match req {
                            ToolRequest::CreateTransaction(i) => StoreCall::InsertTransaction(
                                i,
                                Some(v),
                            ),
                            ToolRequest::SearchTransactions(q) => StoreCall::SearchTransactions(
                                v,
                                q.limit,
                            ),
                            ToolRequest::UpsertCategory(i) => StoreCall::UpsertCategory(i, Some(v)),
                            ToolRequest::SearchCategories(q) => StoreCall::SearchCategories(
                                v,
                                q.limit,
                            ),
                            ToolRequest::ListAccounts(i) => StoreCall::ListAccounts(i),
                            ToolRequest::UpsertAccount(i) => StoreCall::UpsertAccount(i),
                        };
                        (ToolCall::Storing(k), ToolStep::Store(call))
                    },
                    Reply::Embedded(Err(e)) => internal(embed_action_of(k), e),
                    Reply::Stored(_) => internal(
                        embed_action_of(k),
                        String::from_str("unexpected reply"),
                    ),
                }
            },
            ToolCall::Storing(k) => match reply {
                Reply::Stored(Ok(outcome)) => {
                    let out = match (k, outcome) {
                        (ToolKind::CreateTransaction, StoreOutcome::Row(r)) => Some(
                            ToolOutput::Transaction(r),
                        ),
                        (ToolKind::UpsertCategory, StoreOutcome::Row(r)) => Some(
                            ToolOutput::Category(r),
                        ),
                        (ToolKind::UpsertAccount, StoreOutcome::Row(r)) => Some(
                            ToolOutput::Account(r),
                        ),
                        (ToolKind::SearchTransactions, StoreOutcome::Rows(r)) => Some(
                            ToolOutput::Matches(r),
                        ),
                        (ToolKind::SearchCategories, StoreOutcome::Rows(r)) => Some(
                            ToolOutput::Matches(r),
                        ),
                        (ToolKind::ListAccounts, StoreOutcome::Rows(r)) => Some(
                            ToolOutput::Accounts(r),
                        ),
                        _ => None,
                    };
                    match out {
                        Some(o) => (ToolCall::Done, ToolStep::Finished(Ok(o))),
                        None => internal(store_action_of(k), String::from_str("unexpected reply")),
                    }
                },
                Reply::Stored(Err(e)) => internal(store_action_of(k), e),
                Reply::Embedded(_) => internal(
                    store_action_of(k),
                    String::from_str("unexpected reply"),
                ),
            },
            ToolCall::Done => internal(
                "resume tool call",
                String::from_str("no request is pending"),
            ),
        }
    }
}

/// Once a tool call has begun, it never asks for an embedding again: each
/// call embeds at most once, and only as its first step.
pub proof fn lemma_resume_never_embeds<V>(
    call: ToolCall,
    reply: Reply<V>,
    next: ToolCall,
    step: ToolStep<V>,
)
    requires
        resumes(call, reply, next, step),
    ensures
        !(step is Embed),
{
}

/// Creating a transaction with a non-blank description embeds the trimmed
/// description once and stores exactly the vector that came back; with an
/// absent or blank description it embeds nothing and stores no vector.
pub proof fn lemma_transaction_embeds_description<V>(
    input: CreateTransactionInput,
    call: ToolCall,
    step: ToolStep<V>,
)
    requires
        starts(ToolRequest::CreateTransaction(input), call, step),
    ensures
        has_text(opt_view(input.description)) ==> embeds(step, trim(input.description.unwrap()@)),
        has_text(opt_view(input.description)) ==> forall|v: V, next: ToolCall, then: ToolStep<V>|
            #[trigger] resumes(call, Reply::Embedded(Ok(v)), next, then) ==> then
                == ToolStep::Store(StoreCall::InsertTransaction(input, Some(v))),
        !has_text(opt_view(input.description)) ==> step == ToolStep::<V>::Store(
            StoreCall::InsertTransaction(input, None),
        ),
{
}

/// A search whose query is empty or whitespace only is rejected for its
/// `query` field at once, before any embedding or store call.
pub proof fn lemma_blank_query_rejected<V>(req: ToolRequest, call: ToolCall, step: ToolStep<V>)
    requires
        starts(req, call, step),
        search_query(req) is Some,
        is_blank(search_query(req).unwrap()),
    ensures
        rejects_query(step),
        call is Done,
{
}

/// Upserting an account embeds its name first, whatever the store holds,
/// and then hands the unchanged input to the store: the vector is not kept.
pub proof fn lemma_account_embeds_name<V>(
    input: UpsertAccountInput,
    call: ToolCall,
    step: ToolStep<V>,
)
    requires
        starts(ToolRequest::UpsertAccount(input), call, step),
    ensures
        embeds(step, input.name@),
        forall|v: V, next: ToolCall, then: ToolStep<V>|
            #[trigger] resumes(call, Reply::Embedded(Ok(v)), next, then) ==> then
                == ToolStep::<V>::Store(StoreCall::UpsertAccount(input)),
{
}

} // verus!
