//! A ledger of fungible-token balances that lives in memory, to answer balance
//! queries where no chain is at hand.

use vstd::hash_map::StringHashMap;
use vstd::prelude::*;
use vstd::string::StringExecFns;

verus! {

/// What a raw query asks, as far as the mock ledger can tell.
#[derive(Clone, Debug, PartialEq, Eq)]
pub enum MockQuery {
    /// The fungible-token balance of `address`.
    Cw20Balance { address: String },
    /// Anything else.
    Unknown,
}

/// What the mock ledger answers.
#[derive(Clone, Debug, PartialEq, Eq)]
pub enum MockAnswer {
    /// The balance asked for.
    Balance(u128),
    /// The query is none that the ledger can answer; the text says so.
    InvalidRequest { error: String },
}

/// The mathematical value of a [`MockAnswer`].
pub enum MockAnswerView {
    Balance(u128),
    InvalidRequest { error: Seq<char> },
}

impl DeepView for MockAnswer {
    type V = MockAnswerView;

    open spec fn deep_view(&self) -> MockAnswerView {
        match self {
            MockAnswer::Balance(balance) => MockAnswerView::Balance(*balance),
            MockAnswer::InvalidRequest { error } => MockAnswerView::InvalidRequest {
                error: error@,
            },
        }
    }
}

impl View for MockAnswer {
    type V = MockAnswerView;

    open spec fn view(&self) -> MockAnswerView {
        self.deep_view()
    }
}

/// Fungible-token balances by the address that holds them.
pub struct MockQuerier {
    cw20_balances: StringHashMap<u128>,
}

impl View for MockQuerier {
    type V = Map<Seq<char>, u128>;

    closed spec fn view(&self) -> Map<Seq<char>, u128> {
        self.cw20_balances@
    }
}

/// The answer of a ledger with the balances `balances` to the question for the
/// balance of `address`.
pub open spec fn balance_answer(balances: Map<Seq<char>, u128>, address: Seq<char>) -> MockAnswerView {
    if balances.contains_key(address) {
        MockAnswerView::Balance(balances[address])
    } else {
        MockAnswerView::InvalidRequest { error: "MockQuerier: Unknown query"@ }
    }
}

impl MockQuerier {
    /// A ledger without any balance.
    pub fn new() -> (querier: MockQuerier)
        ensures
            querier@ == Map::<Seq<char>, u128>::empty(),
    {
        MockQuerier { cw20_balances: StringHashMap::new() }
    }

    /// The ledger with the balance of `contract` set to `balance`, in place of an
    /// earlier one if there was one.
    pub fn with_cw20_balance(self, contract: &str, balance: u128) -> (querier: MockQuerier)
        ensures
            querier@ == self@.insert(contract@, balance),
    {
        let mut querier = self;
        querier.cw20_balances.insert(String::from_str(contract), balance);
        querier
    }

    /// Answers a query: the balance, where the query asks for the balance of an
    /// address that has one, and a refusal otherwise.
    pub fn raw_query(&self, query: &MockQuery) -> (answer: MockAnswer)
        ensures
            answer@ == (match query {
                MockQuery::Cw20Balance { address } => balance_answer(self@, address@),
                MockQuery::Unknown => MockAnswerView::InvalidRequest {
                    error: "MockQuerier: Unknown query"@,
                },
            }),
    {
        if let MockQuery::Cw20Balance { address } = query {
            if let Some(balance) = self.cw20_balances.get(address.as_str()) {
                return MockAnswer::Balance(*balance);
            }
        }
        MockAnswer::InvalidRequest { error: String::from_str("MockQuerier: Unknown query") }
    }
}

} // verus!
