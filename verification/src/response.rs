//! What an operation hands back to the host: the instructions to dispatch and the
//! attributes to log.

use crate::coin::{NativeCoin, NativeCoinView};
use vstd::prelude::*;

verus! {

/// One instruction for the host to dispatch once the invocation has succeeded.
#[derive(Clone, Debug, PartialEq, Eq)]
pub enum CosmosMsg {
    /// Pay `amount` out of the contract's own holdings to `to_address`.
    Send { to_address: String, amount: Vec<NativeCoin> },
    /// Have the contract at `contract_addr` execute the encoded message `msg`,
    /// sending `funds` along.
    Execute { contract_addr: String, msg: Vec<u8>, funds: Vec<NativeCoin> },
    /// Pass the encoded command `value` to the module that answers to `type_url`.
    Stargate { type_url: String, value: Vec<u8> },
}

/// The mathematical value of a [`CosmosMsg`].
pub enum CosmosMsgView {
    Send { to_address: Seq<char>, amount: Seq<NativeCoinView> },
    Execute { contract_addr: Seq<char>, msg: Seq<u8>, funds: Seq<NativeCoinView> },
    Stargate { type_url: Seq<char>, value: Seq<u8> },
}

impl DeepView for CosmosMsg {
    type V = CosmosMsgView;

    open spec fn deep_view(&self) -> CosmosMsgView {
        match self {
            CosmosMsg::Send { to_address, amount } => CosmosMsgView::Send {
                to_address: to_address@,
                amount: amount.deep_view(),
            },
            CosmosMsg::Execute { contract_addr, msg, funds } => CosmosMsgView::Execute {
                contract_addr: contract_addr@,
                msg: msg@,
                funds: funds.deep_view(),
            },
            CosmosMsg::Stargate { type_url, value } => CosmosMsgView::Stargate {
                type_url: type_url@,
                value: value@,
            },
        }
    }
}

impl View for CosmosMsg {
    type V = CosmosMsgView;

    open spec fn view(&self) -> CosmosMsgView {
        self.deep_view()
    }
}

/// A key and a value for the host's log.
#[derive(Clone, Debug, PartialEq, Eq)]
pub struct Attribute {
    pub key: String,
    pub value: String,
}

/// The mathematical value of an [`Attribute`].
pub struct AttributeView {
    pub key: Seq<char>,
    pub value: Seq<char>,
}

impl DeepView for Attribute {
    type V = AttributeView;

    open spec fn deep_view(&self) -> AttributeView {
        AttributeView { key: self.key@, value: self.value@ }
    }
}

impl View for Attribute {
    type V = AttributeView;

    open spec fn view(&self) -> AttributeView {
        self.deep_view()
    }
}

/// The outcome of a successful operation.
#[derive(Clone, Debug, PartialEq, Eq)]
pub struct Response {
    /// The instructions, in the order in which the host is to dispatch them.
    pub messages: Vec<CosmosMsg>,
    /// The attributes, in the order in which they were attached.
    pub attributes: Vec<Attribute>,
}

/// The mathematical value of a [`Response`].
pub struct ResponseView {
    pub messages: Seq<CosmosMsgView>,
    pub attributes: Seq<AttributeView>,
}

impl DeepView for Response {
    type V = ResponseView;

    open spec fn deep_view(&self) -> ResponseView {
        ResponseView {
            messages: self.messages.deep_view(),
            attributes: self.attributes.deep_view(),
        }
    }
}

impl View for Response {
    type V = ResponseView;

    open spec fn view(&self) -> ResponseView {
        self.deep_view()
    }
}

} // verus!
