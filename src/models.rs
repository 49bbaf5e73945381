//! The records that tool calls carry: transaction, category and account
//! inputs, and the three closed vocabularies they use.

use vstd::prelude::*;

verus! {

/// A JSON number, carried through unread: the amount of a transaction.
#[verifier::external_type_specification]
#[verifier::external_body]
pub struct ExNumber(serde_json::Number);

/// Relies on the derived `Clone` of `serde_json::Number`: a field-for-field
/// copy.
pub assume_specification[ <serde_json::Number as Clone>::clone ](n: &serde_json::Number) -> (r:
    serde_json::Number)
    ensures
        r == *n,
;

/// Which way money moved in a transaction.
#[derive(Debug, Clone, Copy, PartialEq, Eq, Structural)]
pub enum TransactionDirection {
    Income,
    Expense,
    Transfer,
}

impl TransactionDirection {
    /// The word the store keeps for this direction.
    pub open spec fn label(self) -> Seq<char> {
        match self {
            TransactionDirection::Income => "income"@,
            TransactionDirection::Expense => "expense"@,
            TransactionDirection::Transfer => "transfer"@,
        }
    }

    pub fn as_ref(&self) -> (r: &'static str)
        ensures
            r@ == self.label(),
    {
        match self {
            TransactionDirection::Income => "income",
            TransactionDirection::Expense => "expense",
            TransactionDirection::Transfer => "transfer",
        }
    }
}

/// The kind of a category.
#[derive(Debug, Clone, Copy, PartialEq, Eq, Structural)]
pub enum CategoryKind {
    Income,
    Expense,
    Transfer,
}

impl CategoryKind {
    /// The word the store keeps for this kind.
    pub open spec fn label(self) -> Seq<char> {
        match self {
            CategoryKind::Income => "income"@,
            CategoryKind::Expense => "expense"@,
            CategoryKind::Transfer => "transfer"@,
        }
    }

    pub fn as_ref(&self) -> (r: &'static str)
        ensures
            r@ == self.label(),
    {
        match self {
            CategoryKind::Income => "income",
            CategoryKind::Expense => "expense",
            CategoryKind::Transfer => "transfer",
        }
    }
}

/// Where an account lives.
#[derive(Debug, Clone, Copy, PartialEq, Eq, Structural)]
pub enum AccountType {
    Onchain,
    Offchain,
}

impl AccountType {
    /// The word the store keeps for this account type.
    pub open spec fn label(self) -> Seq<char> {
        match self {
            AccountType::Onchain => "onchain"@,
            AccountType::Offchain => "offchain"@,
        }
    }

    pub fn as_ref(&self) -> (r: &'static str)
        ensures
            r@ == self.label(),
    {
        match self {
            AccountType::Onchain => "onchain",
            AccountType::Offchain => "offchain",
        }
    }
}

/// A transaction to record. It has no natural key: each one is inserted.
#[derive(Debug, Clone)]
pub struct CreateTransactionInput {
    pub account_id: String,
    pub amount: serde_json::Number,
    pub currency: String,
    pub direction: TransactionDirection,
    pub occurred_at: String,
    pub description: Option<String>,
    pub raw_source: Option<String>,
}

/// A free-text similarity query with an optional result count.
#[derive(Debug, Clone)]
pub struct SearchSimilarInput {
    pub query: String,
    pub limit: Option<u32>,
}

/// A category to create or update, keyed by its name.
#[derive(Debug, Clone)]
pub struct UpsertCategoryInput {
    pub name: String,
    pub kind: Option<CategoryKind>,
    pub description: Option<String>,
}

/// Filters for listing accounts: a type pushed to the store and a name
/// substring applied to what comes back.
#[derive(Debug, Clone)]
pub struct ListAccountsInput {
    pub account_type: Option<AccountType>,
    pub search: Option<String>,
}

impl Default for ListAccountsInput {
    fn default() -> (r: Self)
        ensures
            r.account_type is None,
            r.search is None,
    {
        ListAccountsInput { account_type: None, search: None }
    }
}

/// An account to create or update, keyed by name and type.
#[derive(Debug, Clone)]
pub struct UpsertAccountInput {
    pub name: String,
    pub account_type: AccountType,
    pub currency: String,
    pub network: Option<String>,
    pub institution: Option<String>,
}

} // verus!
