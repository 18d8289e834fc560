//! The client of the token factory: the module of the chain that creates and mints
//! the receipt token. A token of the factory is named by its owner and a
//! subdenom; the commands that create and mint it are built here and never read
//! back.

use crate::response::{CosmosMsg, CosmosMsgView};
use crate::wire::{put_string_field, string_field};
use cosmwasm_std::Uint128;
use vstd::prelude::*;

pub mod osmosis;

verus! {

/// A token of a token factory. What it derives and builds depends on its owner,
/// its subdenom and the arguments alone.
pub trait TFToken {
    /// The owner, as a value.
    spec fn owner_view(&self) -> Seq<char>;

    /// The subdenom, as a value.
    spec fn subdenom_view(&self) -> Seq<char>;

    /// The full denom under which the factory keeps the token of an owner and a
    /// subdenom.
    spec fn denom_of(owner: Seq<char>, subdenom: Seq<char>) -> Seq<char>;

    /// The instructions that register the token with the factory.
    spec fn create_msgs(owner: Seq<char>, subdenom: Seq<char>) -> Seq<CosmosMsgView>;

    /// The instructions that mint `amount` of the token to `recipient`.
    spec fn mint_msgs(
        owner: Seq<char>,
        subdenom: Seq<char>,
        amount: u128,
        recipient: Seq<char>,
    ) -> Seq<CosmosMsgView>;

    /// Address of the owner of the token, usually the contract's own.
    fn owner(&self) -> (owner: String)
        ensures
            owner@ == self.owner_view(),
    ;

    /// Subdenom of the token.
    fn subdenom(&self) -> (subdenom: String)
        ensures
            subdenom@ == self.subdenom_view(),
    ;

    /// Full denom of the token.
    fn denom(&self) -> (denom: String)
        ensures
            denom@ == Self::denom_of(self.owner_view(), self.subdenom_view()),
    ;

    /// The instructions that register the denom on the chain.
    fn create(&self) -> (messages: Vec<CosmosMsg>)
        ensures
            messages.deep_view() == Self::create_msgs(self.owner_view(), self.subdenom_view()),
    ;

    /// The instructions that mint `amount` of the token to `recipient`.
    fn mint(&self, amount: u128, recipient: String) -> (messages: Vec<CosmosMsg>)
        ensures
            messages.deep_view() == Self::mint_msgs(
                self.owner_view(),
                self.subdenom_view(),
                amount,
                recipient@,
            ),
    ;
}

/// The character that stands for a digit `d` below ten.
pub open spec fn digit(d: nat) -> char {
    seq!['0', '1', '2', '3', '4', '5', '6', '7', '8', '9'][d as int]
}

/// A number in decimal notation, without sign or leading zeros.
pub open spec fn decimal(n: nat) -> Seq<char>
    decreases n,
{
    if n < 10 {
        seq![digit(n)]
    } else {
        decimal(n / 10).push(digit(n % 10))
    }
}

/// Calls `to_string` on a `cosmwasm_std::Uint128`.
///
/// Trusted: the text is the amount in decimal notation.
#[verifier::external_body]
pub(crate) fn amount_string(amount: u128) -> (text: String)
    ensures
        text@ == decimal(amount as nat),
{
    Uint128::new(amount).to_string()
}

/// An amount of a denomination as the chain's bank writes it: the amount in
/// decimal notation.
#[derive(Clone, Debug, PartialEq, Eq)]
pub struct Coin {
    pub denom: String,
    pub amount: String,
}

/// The mathematical value of a [`Coin`].
pub struct CoinView {
    pub denom: Seq<char>,
    pub amount: Seq<char>,
}

impl CoinView {
    /// The encoded message: the denom as field 1, the amount as field 2.
    pub open spec fn wire(self) -> Seq<u8> {
        string_field(1, self.denom) + string_field(2, self.amount)
    }
}

impl DeepView for Coin {
    type V = CoinView;

    open spec fn deep_view(&self) -> CoinView {
        CoinView { denom: self.denom@, amount: self.amount@ }
    }
}

impl View for Coin {
    type V = CoinView;

    open spec fn view(&self) -> CoinView {
        self.deep_view()
    }
}

impl Coin {
    /// The name of the message type.
    pub const TYPE_URL: &'static str = "/cosmos.bank.v1beta1.Coin";

    /// The message in the wire format.
    pub fn encode_to_vec(&self) -> (bytes: Vec<u8>)
        ensures
            bytes@ == self@.wire(),
    {
        let mut bytes: Vec<u8> = Vec::new();
        put_string_field(1, &self.denom, &mut bytes);
        put_string_field(2, &self.amount, &mut bytes);
        assert(bytes@ =~= self@.wire());
        bytes
    }
}

} // verus!
