//! The creation of the contract.

use crate::execute::{Env, MessageInfo};
use crate::msg::InstantiateMsg;
use crate::response::{Attribute, AttributeView, Response, ResponseView};
use crate::state::{State, StateView};
use crate::tokenfactory::osmosis::{MsgCreateDenomView, TFToken};
use vstd::prelude::*;
use vstd::string::StringExecFns;

verus! {

/// The subdenom of the receipt token.
pub const SUBDENOM: &'static str = "SouLP";

/// The custody state of a contract that `sender` creates with the request
/// `pool`, `mint_ratio`: the creator is the first evacuation address.
pub open spec fn initial_state(sender: Seq<char>, msg: InstantiateMsg) -> StateView {
    StateView { pool: msg.pool@, evacuate_address: sender, mint_ratio: msg.mint_ratio }
}

/// The response to the creation of the contract at `contract_address`: the one
/// instruction that registers the receipt token, and the mark of the method.
pub open spec fn instantiated(contract_address: Seq<char>) -> ResponseView {
    ResponseView {
        messages: seq![
            (MsgCreateDenomView { sender: contract_address, subdenom: SUBDENOM@ }).msg(),
        ],
        attributes: seq![AttributeView { key: "method"@, value: "instantiate"@ }],
    }
}

/// Creates the contract: gives the custody state for the host to store, and the
/// response, which registers the receipt token with the token factory.
pub fn instantiate(env: &Env, info: &MessageInfo, msg: InstantiateMsg) -> (created: (
    State,
    Response,
))
    ensures
        created.0@ == initial_state(info.sender@, msg),
        created.1@ == instantiated(env.contract_address@),
{
    let token = TFToken::new(env.contract_address.clone(), String::from_str(SUBDENOM));
    let state = State {
        pool: msg.pool,
        evacuate_address: info.sender.clone(),
        mint_ratio: msg.mint_ratio,
    };
    let attribute = Attribute {
        key: String::from_str("method"),
        value: String::from_str("instantiate"),
    };
    let attributes = vec![attribute];
    assert(attributes.deep_view() =~= seq![attribute@]);
    let messages = crate::tokenfactory::TFToken::create(&token);
    (state, Response { messages, attributes })
}

} // verus!
