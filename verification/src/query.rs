//! The questions that the contract answers without changing anything.

use crate::contract::SUBDENOM;
use crate::execute::Env;
use crate::msg::QueryMsg;
use crate::state::{State, StateView};
use crate::tokenfactory::osmosis::{denom, factory_denom};
use vstd::prelude::*;

verus! {

/// An answer, before the host encodes it.
#[derive(Clone, Debug, PartialEq, Eq)]
pub enum QueryResponse {
    /// The custody state.
    State(State),
    /// The denom of the receipt token.
    TokenAddress(String),
}

/// The mathematical value of a [`QueryResponse`].
pub enum QueryResponseView {
    State(StateView),
    TokenAddress(Seq<char>),
}

impl DeepView for QueryResponse {
    type V = QueryResponseView;

    open spec fn deep_view(&self) -> QueryResponseView {
        match self {
            QueryResponse::State(state) => QueryResponseView::State(state@),
            QueryResponse::TokenAddress(denom) => QueryResponseView::TokenAddress(denom@),
        }
    }
}

impl View for QueryResponse {
    type V = QueryResponseView;

    open spec fn view(&self) -> QueryResponseView {
        self.deep_view()
    }
}

/// The custody state as it stands.
fn state(current: &State) -> (copy: State)
    ensures
        copy@ == current@,
{
    State {
        pool: current.pool.clone(),
        evacuate_address: current.evacuate_address.clone(),
        mint_ratio: current.mint_ratio,
    }
}

/// The denom of the receipt token of the contract at `env`.
fn token_address(env: &Env) -> (address: String)
    ensures
        address@ == factory_denom(env.contract_address@, SUBDENOM@),
{
    denom(env.contract_address.as_str(), SUBDENOM)
}

/// Answers a question from the custody state and the contract's own address.
pub fn query(current: &State, env: &Env, msg: QueryMsg) -> (answer: QueryResponse)
    ensures
        answer@ == (match msg {
            QueryMsg::State {  } => QueryResponseView::State(current@),
            QueryMsg::TokenAddress {  } => QueryResponseView::TokenAddress(
                factory_denom(env.contract_address@, SUBDENOM@),
            ),
        }),
{
    match msg {
        QueryMsg::State {  } => QueryResponse::State(state(current)),
        QueryMsg::TokenAddress {  } => QueryResponse::TokenAddress(token_address(env)),
    }
}

} // verus!
