//! The token factory of Osmosis: its denoms and its commands.

use crate::execute::Env;
use crate::response::{CosmosMsg, CosmosMsgView};
use crate::tokenfactory::{amount_string, decimal, Coin, CoinView};
use crate::wire::{length_delimited, put_message_field, put_string_field, string_field};
use vstd::prelude::*;
use vstd::string::StringExecFns;

verus! {

/// The denom of the token that `owner` keeps under `subdenom`.
pub open spec fn factory_denom(owner: Seq<char>, subdenom: Seq<char>) -> Seq<char> {
    "factory/"@ + owner + "/"@ + subdenom
}

/// Derives the denom of the token that `owner` keeps under `subdenom`.
pub fn denom(owner: &str, subdenom: &str) -> (denom: String)
    ensures
        denom@ == factory_denom(owner@, subdenom@),
{
    String::from_str("factory/").concat(owner).concat("/").concat(subdenom)
}

/// Under one owner, two subdenoms have the same denom only if they are the same.
pub proof fn lemma_denom_tells_subdenoms_apart(
    owner: Seq<char>,
    subdenom1: Seq<char>,
    subdenom2: Seq<char>,
)
    ensures
        factory_denom(owner, subdenom1) == factory_denom(owner, subdenom2) <==> subdenom1
            == subdenom2,
{
    let head = "factory/"@ + owner + "/"@;
    if factory_denom(owner, subdenom1) == factory_denom(owner, subdenom2) {
        assert(subdenom1.len() == subdenom2.len()) by {
            assert(factory_denom(owner, subdenom1).len() == head.len() + subdenom1.len());
            assert(factory_denom(owner, subdenom2).len() == head.len() + subdenom2.len());
        }
        assert forall|i: int| 0 <= i < subdenom1.len() implies subdenom1[i] == subdenom2[i] by {
            assert(factory_denom(owner, subdenom1)[head.len() + i] == subdenom1[i]);
            assert(factory_denom(owner, subdenom2)[head.len() + i] == subdenom2[i]);
        }
        assert(subdenom1 =~= subdenom2);
    }
}

/// Under one subdenom, two owners have the same denom only if they are the same.
pub proof fn lemma_denom_tells_owners_apart(
    owner1: Seq<char>,
    owner2: Seq<char>,
    subdenom: Seq<char>,
)
    ensures
        factory_denom(owner1, subdenom) == factory_denom(owner2, subdenom) <==> owner1 == owner2,
{
    let head = "factory/"@;
    let tail = "/"@ + subdenom;
    if factory_denom(owner1, subdenom) == factory_denom(owner2, subdenom) {
        assert(owner1.len() == owner2.len()) by {
            assert(factory_denom(owner1, subdenom).len() == head.len() + owner1.len() + tail.len());
            assert(factory_denom(owner2, subdenom).len() == head.len() + owner2.len() + tail.len());
        }
        assert forall|i: int| 0 <= i < owner1.len() implies owner1[i] == owner2[i] by {
            assert(factory_denom(owner1, subdenom)[head.len() + i] == owner1[i]);
            assert(factory_denom(owner2, subdenom)[head.len() + i] == owner2[i]);
        }
        assert(owner1 =~= owner2);
    }
}

/// Among owners whose addresses hold no slash, a denom names one owner and one
/// subdenom only.
pub proof fn lemma_denom_is_collision_free(
    owner1: Seq<char>,
    subdenom1: Seq<char>,
    owner2: Seq<char>,
    subdenom2: Seq<char>,
)
    requires
        !owner1.contains('/'),
        !owner2.contains('/'),
        factory_denom(owner1, subdenom1) == factory_denom(owner2, subdenom2),
    ensures
        owner1 == owner2,
        subdenom1 == subdenom2,
{
    reveal_strlit("/");
    let head = "factory/"@;
    let denom = factory_denom(owner1, subdenom1);
    if owner1.len() < owner2.len() {
        assert(factory_denom(owner1, subdenom1)[(head.len() + owner1.len()) as int] == '/');
        assert(factory_denom(owner2, subdenom2)[(head.len() + owner1.len()) as int] == owner2[
            owner1.len() as int
        ]);
        assert(owner2.contains(owner2[owner1.len() as int]));
    }
    if owner2.len() < owner1.len() {
        assert(factory_denom(owner2, subdenom2)[(head.len() + owner2.len()) as int] == '/');
        assert(factory_denom(owner1, subdenom1)[(head.len() + owner2.len()) as int] == owner1[
            owner2.len() as int
        ]);
        assert(owner1.contains(owner1[owner2.len() as int]));
    }
    assert forall|i: int| 0 <= i < owner1.len() implies owner1[i] == owner2[i] by {
        assert(factory_denom(owner1, subdenom1)[head.len() + i] == owner1[i]);
        assert(factory_denom(owner2, subdenom2)[head.len() + i] == owner2[i]);
    }
    assert(owner1 =~= owner2);
    lemma_denom_tells_subdenoms_apart(owner1, subdenom1, subdenom2);
}

/// The command that registers a denom.
#[derive(Clone, Debug, PartialEq, Eq)]
pub struct MsgCreateDenom {
    pub sender: String,
    pub subdenom: String,
}

/// The mathematical value of a [`MsgCreateDenom`].
pub struct MsgCreateDenomView {
    pub sender: Seq<char>,
    pub subdenom: Seq<char>,
}

impl MsgCreateDenomView {
    /// The encoded command: the sender as field 1, the subdenom as field 2.
    pub open spec fn wire(self) -> Seq<u8> {
        string_field(1, self.sender) + string_field(2, self.subdenom)
    }

    /// The instruction that carries the command.
    pub open spec fn msg(self) -> CosmosMsgView {
        CosmosMsgView::Stargate { type_url: MsgCreateDenom::TYPE_URL@, value: self.wire() }
    }
}

impl DeepView for MsgCreateDenom {
    type V = MsgCreateDenomView;

    open spec fn deep_view(&self) -> MsgCreateDenomView {
        MsgCreateDenomView { sender: self.sender@, subdenom: self.subdenom@ }
    }
}

impl View for MsgCreateDenom {
    type V = MsgCreateDenomView;

    open spec fn view(&self) -> MsgCreateDenomView {
        self.deep_view()
    }
}

impl MsgCreateDenom {
    /// The name by which the factory knows this command.
    pub const TYPE_URL: &'static str = "/osmosis.tokenfactory.v1beta1.MsgCreateDenom";

    /// The command in the wire format.
    pub fn encode_to_vec(&self) -> (bytes: Vec<u8>)
        ensures
            bytes@ == self@.wire(),
    {
        let mut bytes: Vec<u8> = Vec::new();
        put_string_field(1, &self.sender, &mut bytes);
        put_string_field(2, &self.subdenom, &mut bytes);
        assert(bytes@ =~= self@.wire());
        bytes
    }

    /// The instruction that carries this command to the factory.
    pub fn into_msg(self) -> (message: CosmosMsg)
        ensures
            message@ == self@.msg(),
    {
        CosmosMsg::Stargate {
            type_url: String::from_str(Self::TYPE_URL),
            value: self.encode_to_vec(),
        }
    }
}

/// The command that mints an amount of a denom to an address.
#[derive(Clone, Debug, PartialEq, Eq)]
pub struct MsgMint {
    pub sender: String,
    pub amount: Option<Coin>,
    pub mint_to_address: String,
}

/// The mathematical value of a [`MsgMint`].
pub struct MsgMintView {
    pub sender: Seq<char>,
    pub amount: Option<CoinView>,
    pub mint_to_address: Seq<char>,
}

impl MsgMintView {
    /// The encoded command: the sender as field 1, the amount, where there is
    /// one, as the message of field 2, the receiving address as field 3.
    pub open spec fn wire(self) -> Seq<u8> {
        string_field(1, self.sender) + (match self.amount {
            Some(coin) => length_delimited(2, coin.wire()),
            None => Seq::empty(),
        }) + string_field(3, self.mint_to_address)
    }

    /// The instruction that carries the command.
    pub open spec fn msg(self) -> CosmosMsgView {
        CosmosMsgView::Stargate { type_url: MsgMint::TYPE_URL@, value: self.wire() }
    }
}

impl DeepView for MsgMint {
    type V = MsgMintView;

    open spec fn deep_view(&self) -> MsgMintView {
        MsgMintView {
            sender: self.sender@,
            amount: match self.amount {
                Some(coin) => Some(coin@),
                None => None,
            },
            mint_to_address: self.mint_to_address@,
        }
    }
}

impl View for MsgMint {
    type V = MsgMintView;

    open spec fn view(&self) -> MsgMintView {
        self.deep_view()
    }
}

/// The command by which `owner` mints `amount` of its token `subdenom` to
/// `mint_to_address`.
pub open spec fn mint_command(
    owner: Seq<char>,
    subdenom: Seq<char>,
    amount: u128,
    mint_to_address: Seq<char>,
) -> MsgMintView {
    MsgMintView {
        sender: owner,
        amount: Some(
            CoinView { denom: factory_denom(owner, subdenom), amount: decimal(amount as nat) },
        ),
        mint_to_address,
    }
}

impl MsgMint {
    /// The name by which the factory knows this command.
    pub const TYPE_URL: &'static str = "/osmosis.tokenfactory.v1beta1.MsgMint";

    /// The command by which the contract mints `amount` of its own token
    /// `subdenom` to `mint_to_address`.
    pub fn subdenom(env: &Env, subdenom: &str, amount: u128, mint_to_address: &str) -> (command:
        MsgMint)
        ensures
            command@ == mint_command(env.contract_address@, subdenom@, amount, mint_to_address@),
    {
        MsgMint {
            sender: env.contract_address.clone(),
            amount: Some(
                Coin {
                    denom: denom(env.contract_address.as_str(), subdenom),
                    amount: amount_string(amount),
                },
            ),
            mint_to_address: mint_to_address.to_owned(),
        }
    }

    /// The command in the wire format.
    pub fn encode_to_vec(&self) -> (bytes: Vec<u8>)
        ensures
            bytes@ == self@.wire(),
    {
        let mut bytes: Vec<u8> = Vec::new();
        put_string_field(1, &self.sender, &mut bytes);
        match &self.amount {
            Some(coin) => {
                put_message_field(2, coin.encode_to_vec(), &mut bytes);
            },
            None => {},
        }
        put_string_field(3, &self.mint_to_address, &mut bytes);
        assert(bytes@ =~= self@.wire());
        bytes
    }

    /// The instruction that carries this command to the factory.
    pub fn into_msg(self) -> (message: CosmosMsg)
        ensures
            message@ == self@.msg(),
    {
        CosmosMsg::Stargate {
            type_url: String::from_str(Self::TYPE_URL),
            value: self.encode_to_vec(),
        }
    }
}

/// A token of the Osmosis token factory.
#[derive(Clone, Debug, PartialEq, Eq)]
pub struct TFToken {
    pub owner: String,
    pub subdenom: String,
}

impl TFToken {
    /// The token that `owner` keeps under `subdenom`.
    pub fn new(owner: String, subdenom: String) -> (token: TFToken)
        ensures
            token.owner == owner,
            token.subdenom == subdenom,
    {
        TFToken { owner, subdenom }
    }
}

impl crate::tokenfactory::TFToken for TFToken {
    open spec fn owner_view(&self) -> Seq<char> {
        self.owner@
    }

    open spec fn subdenom_view(&self) -> Seq<char> {
        self.subdenom@
    }

    open spec fn denom_of(owner: Seq<char>, subdenom: Seq<char>) -> Seq<char> {
        factory_denom(owner, subdenom)
    }

    open spec fn create_msgs(owner: Seq<char>, subdenom: Seq<char>) -> Seq<CosmosMsgView> {
        seq![(MsgCreateDenomView { sender: owner, subdenom }).msg()]
    }

    open spec fn mint_msgs(
        owner: Seq<char>,
        subdenom: Seq<char>,
        amount: u128,
        recipient: Seq<char>,
    ) -> Seq<CosmosMsgView> {
        seq![mint_command(owner, subdenom, amount, recipient).msg()]
    }

    fn owner(&self) -> (owner: String) {
        self.owner.clone()
    }

    fn subdenom(&self) -> (subdenom: String) {
        self.subdenom.clone()
    }

    fn denom(&self) -> (denom: String) {
        denom(self.owner.as_str(), self.subdenom.as_str())
    }

    fn create(&self) -> (messages: Vec<CosmosMsg>) {
        let command = MsgCreateDenom { sender: self.owner.clone(), subdenom: self.subdenom.clone() };
        let message = command.into_msg();
        let messages = vec![message];
        assert(messages.deep_view() =~= seq![message@]);
        messages
    }

    fn mint(&self, amount: u128, recipient: String) -> (messages: Vec<CosmosMsg>) {
        let command = MsgMint {
            sender: self.owner.clone(),
            amount: Some(Coin { denom: self.denom(), amount: amount_string(amount) }),
            mint_to_address: recipient,
        };
        let message = command.into_msg();
        let messages = vec![message];
        assert(messages.deep_view() =~= seq![message@]);
        messages
    }
}

} // verus!
