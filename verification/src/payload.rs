//! The messages by which token contracts are told to hand tokens over, in the JSON
//! form that those contracts read.

use cosmwasm_std::{to_json_binary, StdError, Uint128};
use cw20::Cw20ExecuteMsg;
use cw721::Cw721ExecuteMsg;
use vstd::prelude::*;

verus! {

/// The JSON text that tells a fungible-token contract to transfer `amount` of the
/// sender's tokens to `recipient`; `None` where the encoder gives none.
pub uninterp spec fn cw20_transfer_json(recipient: Seq<char>, amount: u128) -> Option<Seq<u8>>;

/// The JSON text that tells a token collection to transfer the token `token_id` to
/// `recipient`; `None` where the encoder gives none.
pub uninterp spec fn cw721_transfer_json(recipient: Seq<char>, token_id: Seq<char>) -> Option<
    Seq<u8>,
>;

/// The bytes that an encoder's result holds, if it holds any.
pub open spec fn encoded(payload: Result<Vec<u8>, StdError>) -> Option<Seq<u8>> {
    match payload {
        Ok(bytes) => Some(bytes@),
        Err(_) => None,
    }
}

/// Calls `cosmwasm_std::to_json_binary` on `cw20::Cw20ExecuteMsg::Transfer`.
///
/// Trusted: the encoder is a function of the message alone, so what it gives for a
/// recipient and an amount, text or failure, is what [`cw20_transfer_json`] names.
#[verifier::external_body]
pub(crate) fn cw20_transfer(recipient: &str, amount: u128) -> (payload: Result<Vec<u8>, StdError>)
    ensures
        encoded(payload) == cw20_transfer_json(recipient@, amount),
{
    let msg = Cw20ExecuteMsg::Transfer {
        recipient: recipient.to_string(),
        amount: Uint128::new(amount),
    };
    to_json_binary(&msg).map(Vec::from)
}

/// Calls `cosmwasm_std::to_json_binary` on `cw721::Cw721ExecuteMsg::TransferNft`.
///
/// Trusted: the encoder is a function of the message alone, so what it gives for a
/// recipient and a token, text or failure, is what [`cw721_transfer_json`] names.
#[verifier::external_body]
pub(crate) fn cw721_transfer(recipient: &str, token_id: &str) -> (payload: Result<
    Vec<u8>,
    StdError,
>)
    ensures
        encoded(payload) == cw721_transfer_json(recipient@, token_id@),
{
    let msg = Cw721ExecuteMsg::TransferNft {
        recipient: recipient.to_string(),
        token_id: token_id.to_string(),
    };
    to_json_binary(&msg).map(Vec::from)
}

} // verus!
