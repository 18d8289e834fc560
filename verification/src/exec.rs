//! The operations of the contract: deposit, evacuation, and the change of the
//! evacuation address, with the dispatcher that routes a request to one of them.

use crate::coin::NativeCoinView;
use crate::contract::SUBDENOM;
use crate::error::{comes_to, result_view, ContractError, ContractErrorView, Outcome};
use crate::execute::{
    evacuation, execute_msg, lemma_native_transfers_of_pool_only,
    lemma_native_transfers_spare_pool, native_transfers, pays_one_balance, Deps, DepsView,
    ExecuteContext, ExecuteContextView, Token, TokenView,
};
use crate::msg::{EvacuateAsset, EvacuateAssetView, ExecuteMsg, ExecuteMsgView};
use crate::payload::cw20_transfer_json;
use crate::response::{
    Attribute, AttributeView, CosmosMsg, CosmosMsgView, Response, ResponseView,
};
use crate::state::{State, StateView};
use crate::tokenfactory::osmosis::{mint_command, MsgCreateDenom, MsgMint, TFToken};
use cosmwasm_std::StdError;
use vstd::prelude::*;
use vstd::string::StringExecFns;

verus! {

/// What one request asks of the host before it can be answered.
#[derive(Clone, Debug, PartialEq, Eq)]
pub struct Questions {
    /// The stored evacuation address, for the host's validator.
    pub evacuate_address: Option<String>,
    /// Whether every native balance of the contract is asked for.
    pub balances: bool,
    /// The address of a fungible-token contract, for the host's validator, and
    /// for the contract's balance of that token.
    pub cw20_balance: Option<String>,
}

/// The mathematical value of a [`Questions`].
pub struct QuestionsView {
    pub evacuate_address: Option<Seq<char>>,
    pub balances: bool,
    pub cw20_balance: Option<Seq<char>>,
}

impl DeepView for Questions {
    type V = QuestionsView;

    open spec fn deep_view(&self) -> QuestionsView {
        QuestionsView {
            evacuate_address: match self.evacuate_address {
                Some(address) => Some(address@),
                None => None,
            },
            balances: self.balances,
            cw20_balance: match self.cw20_balance {
                Some(contract) => Some(contract@),
                None => None,
            },
        }
    }
}

impl View for Questions {
    type V = QuestionsView;

    open spec fn view(&self) -> QuestionsView {
        self.deep_view()
    }
}

/// What a request asks of the host: an evacuation asks whether the stored
/// evacuation address is valid and, by the kind of asset, for the native balances
/// or for the balance of one fungible token; no other request asks anything.
pub open spec fn asked(state: StateView, msg: ExecuteMsgView) -> QuestionsView {
    match msg {
        ExecuteMsgView::Evacuate { asset } => QuestionsView {
            evacuate_address: Some(state.evacuate_address),
            balances: asset is Native,
            cw20_balance: match asset {
                EvacuateAssetView::Cw20 { contract } => Some(contract),
                _ => None,
            },
        },
        _ => QuestionsView { evacuate_address: None, balances: false, cw20_balance: None },
    }
}

/// Whether two sets of answers agree on every question of `questions`.
pub open spec fn same_answers(questions: QuestionsView, one: DepsView, other: DepsView) -> bool {
    &&& questions.evacuate_address is Some ==> one.evacuate_address == other.evacuate_address
    &&& questions.balances ==> one.balances == other.balances
    &&& questions.cw20_balance is Some ==> one.cw20_balance == other.cw20_balance
}

/// Tells what the host has to find out before `msg` can be answered.
pub fn questions(state: &State, msg: &ExecuteMsg) -> (questions: Questions)
    ensures
        questions@ == asked(state@, msg@),
{
    match msg {
        ExecuteMsg::Evacuate { asset } => Questions {
            evacuate_address: Some(state.evacuate_address.clone()),
            balances: match asset {
                EvacuateAsset::Native {  } => true,
                _ => false,
            },
            cw20_balance: match asset {
                EvacuateAsset::Cw20 { contract } => Some(contract.clone()),
                _ => None,
            },
        },
        _ => Questions { evacuate_address: None, balances: false, cw20_balance: None },
    }
}

/// The response that carries nothing.
pub open spec fn empty_response() -> ResponseView {
    ResponseView { messages: Seq::empty(), attributes: Seq::empty() }
}

/// Whether the funds sent along are what a deposit takes: one fund, of the locked
/// asset.
pub open spec fn deposit_accepted(state: StateView, funds: Seq<NativeCoinView>) -> bool {
    funds.len() == 1 && funds[0].denom == state.pool
}

/// The response that has the contract at `contract_address` mint `amount` of its
/// receipt token to `recipient`, and does nothing else.
pub open spec fn minting(
    contract_address: Seq<char>,
    amount: u128,
    recipient: Seq<char>,
) -> ResponseView {
    ResponseView {
        messages: seq![mint_command(contract_address, SUBDENOM@, amount, recipient).msg()],
        attributes: Seq::empty(),
    }
}

/// The refusal of funds for the reason `reason`.
pub open spec fn invalid_funds(reason: Seq<char>) -> Result<ResponseView, ContractErrorView> {
    Err(ContractErrorView::InvalidFunds(reason))
}

/// What a deposit comes to: a refusal unless the funds are exactly one fund of
/// the locked asset; else the minting, to the caller, of the deposited amount
/// times the mint ratio, rounded down.
pub open spec fn deposited(state: StateView, ctx: ExecuteContextView) -> Result<
    ResponseView,
    ContractErrorView,
> {
    if ctx.funds.len() != 1 {
        invalid_funds("Expected exactly one asset"@)
    } else if ctx.funds[0].denom != state.pool {
        invalid_funds("Invalid asset"@)
    } else {
        Ok(
            minting(
                ctx.contract_address,
                state.mint_ratio.mul_floor(ctx.funds[0].amount) as u128,
                ctx.sender,
            ),
        )
    }
}

/// Whether the amount that a deposit would mint is an amount of the ledger. A
/// deposit that is refused mints nothing.
pub open spec fn mint_fits(state: StateView, ctx: ExecuteContextView) -> bool {
    deposit_accepted(state, ctx.funds) ==> state.mint_ratio.mul_floor(ctx.funds[0].amount)
        <= u128::MAX
}

/// Tells whether the amount that a deposit would mint is an amount of the
/// ledger, which is what [`deposit`] asks of its caller.
pub fn check_mint_fits(state: &State, ctx: &ExecuteContext) -> (fits: bool)
    ensures
        fits == mint_fits(state@, ctx@),
{
    if ctx.info.funds.len() != 1 {
        return true;
    }
    let fund = &ctx.info.funds[0];
    assert(ctx@.funds[0] == fund@);
    if !(fund.denom == state.pool) {
        return true;
    }
    state.mint_ratio.checked_mul_floor(fund.amount).is_some()
}

/// Locks the one fund sent along and mints receipt tokens for it to the caller.
///
/// The deposited asset stays with the contract: no instruction moves it. The
/// amount to mint has to fit the amounts of the ledger.
pub fn deposit(state: &State, ctx: &ExecuteContext) -> (r: Result<Response, ContractError>)
    requires
        mint_fits(state@, ctx@),
    ensures
        result_view(r) == deposited(state@, ctx@),
        ctx@.funds.len() != 1 ==> result_view(r) == invalid_funds("Expected exactly one asset"@),
        ctx@.funds.len() == 1 && ctx@.funds[0].denom != state@.pool ==> result_view(r)
            == invalid_funds("Invalid asset"@),
        deposit_accepted(state@, ctx@.funds) ==> result_view(r) == Ok::<
            ResponseView,
            ContractErrorView,
        >(
            minting(
                ctx@.contract_address,
                state.mint_ratio.mul_floor(ctx@.funds[0].amount) as u128,
                ctx@.sender,
            ),
        ),
{
    if ctx.info.funds.len() != 1 {
        return Err(ContractError::InvalidFunds(String::from_str("Expected exactly one asset")));
    }
    let fund = &ctx.info.funds[0];
    assert(ctx@.funds[0] == fund@);
    if !(fund.denom == state.pool) {
        return Err(ContractError::InvalidFunds(String::from_str("Invalid asset")));
    }
    let mint_amount = state.mint_ratio.checked_mul_floor(fund.amount).unwrap();
    let token = TFToken::new(ctx.env.contract_address.clone(), String::from_str(SUBDENOM));
    let messages = crate::tokenfactory::TFToken::mint(&token, mint_amount, ctx.info.sender.clone());
    let attributes: Vec<Attribute> = Vec::new();
    assert(attributes.deep_view() =~= Seq::empty());
    Ok(Response { messages, attributes })
}

/// The mark that every evacuation leaves in the log.
pub open spec fn evacuate_attribute() -> AttributeView {
    AttributeView { key: "action"@, value: "evacuate"@ }
}

/// What an evacuation comes to: the refusal of the stored evacuation address by
/// the host's validator, or else the transfers of the holdings that the request
/// names to that address, always with the one attribute.
pub open spec fn evacuated(state: StateView, deps: DepsView, asset: EvacuateAssetView) -> Outcome<
    ResponseView,
> {
    match deps.evacuate_address {
        Err(e) => Outcome::Refused(ContractErrorView::Std(e)),
        Ok(_) => match evacuation(
            deps,
            TokenView::Native(state.pool),
            asset,
            state.evacuate_address,
        ) {
            Outcome::Done(messages) => Outcome::Done(
                ResponseView { messages, attributes: seq![evacuate_attribute()] },
            ),
            Outcome::Refused(e) => Outcome::Refused(e),
            Outcome::EncoderFailed => Outcome::EncoderFailed,
        },
    }
}

/// An evacuation that succeeds leaves its one mark, however many transfers it
/// makes.
pub proof fn lemma_evacuation_leaves_one_mark(
    state: StateView,
    deps: DepsView,
    asset: EvacuateAssetView,
)
    ensures
        evacuated(state, deps, asset) matches Outcome::Done(response) ==> response.attributes
            == seq![evacuate_attribute()],
{
}

/// A native evacuation succeeds wherever the host could validate the evacuation
/// address and read the balances, and spares the locked asset: the instructions
/// are the transfers of the other balances.
pub proof fn lemma_native_evacuation_succeeds(
    state: StateView,
    deps: DepsView,
    balances: Seq<NativeCoinView>,
)
    requires
        deps.evacuate_address is Ok,
        deps.balances == Ok::<Seq<NativeCoinView>, StdError>(balances),
    ensures
        evacuated(state, deps, EvacuateAssetView::Native) == Outcome::Done(
            ResponseView {
                messages: native_transfers(
                    TokenView::Native(state.pool),
                    balances,
                    state.evacuate_address,
                ),
                attributes: seq![evacuate_attribute()],
            },
        ),
{
}

/// Where the contract holds nothing, or nothing but the locked asset, a native
/// evacuation succeeds with no instruction and with its mark.
pub proof fn lemma_native_evacuation_of_pool_only(
    state: StateView,
    deps: DepsView,
    balances: Seq<NativeCoinView>,
)
    requires
        deps.evacuate_address is Ok,
        deps.balances == Ok::<Seq<NativeCoinView>, StdError>(balances),
        forall|i: int| 0 <= i < balances.len() ==> (#[trigger] balances[i]).denom == state.pool,
    ensures
        evacuated(state, deps, EvacuateAssetView::Native) == Outcome::Done(
            ResponseView { messages: Seq::empty(), attributes: seq![evacuate_attribute()] },
        ),
{
    lemma_native_transfers_of_pool_only(state.pool, balances, state.evacuate_address);
}

/// The evacuation of a fungible token makes exactly one instruction, which tells
/// the token contract to transfer the whole balance that the host read, be it
/// zero, to the evacuation address.
pub proof fn lemma_cw20_evacuation_transfers_all(
    state: StateView,
    deps: DepsView,
    contract: Seq<char>,
    balance: u128,
)
    requires
        deps.evacuate_address is Ok,
        deps.cw20_balance == Ok::<u128, StdError>(balance),
        cw20_transfer_json(state.evacuate_address, balance) is Some,
    ensures
        evacuated(state, deps, EvacuateAssetView::Cw20 { contract }) == Outcome::Done(
            ResponseView {
                messages: seq![
                    execute_msg(contract, cw20_transfer_json(state.evacuate_address, balance)->0),
                ],
                attributes: seq![evacuate_attribute()],
            },
        ),
{
}

/// Sweeps the holdings that `asset` names to the evacuation address.
pub fn evacuate(state: &State, ctx: ExecuteContext, asset: EvacuateAsset) -> (r: Result<
    Response,
    ContractError,
>)
    ensures
        comes_to(result_view(r), evacuated(state@, ctx@.deps, asset@)),
{
    let ExecuteContext { deps, env, info } = ctx;
    let Deps { evacuate_address, balances, cw20_balance } = deps;
    match evacuate_address {
        Err(e) => Err(ContractError::Std(e)),
        Ok(valid) => {
            let ctx = ExecuteContext {
                deps: Deps { evacuate_address: Ok(valid), balances, cw20_balance },
                env,
                info,
            };
            match crate::execute::evacuate(
                ctx,
                Token::Native(state.pool.clone()),
                asset,
                state.evacuate_address.clone(),
            ) {
                Ok(messages) => {
                    let attribute = Attribute {
                        key: String::from_str("action"),
                        value: String::from_str("evacuate"),
                    };
                    let attributes = vec![attribute];
                    assert(attributes.deep_view() =~= seq![attribute@]);
                    Ok(Response { messages, attributes })
                },
                Err(e) => Err(e),
            }
        },
    }
}

/// Whether `sender` may name a new evacuation address: only the current one may.
pub open spec fn authorized(state: StateView, sender: Seq<char>) -> bool {
    state.evacuate_address == sender
}

/// The custody state with `new_address` in place of the evacuation address.
pub open spec fn readdressed(state: StateView, new_address: Seq<char>) -> StateView {
    StateView { evacuate_address: new_address, ..state }
}

/// Names `new_address` the evacuation address, if the caller is the current one.
///
/// Nothing but that field changes, and a refusal changes nothing.
pub fn change_evacuate_address(state: &mut State, ctx: &ExecuteContext, new_address: String) -> (r:
    Result<Response, ContractError>)
    ensures
        authorized(old(state)@, ctx@.sender) ==> result_view(r) == Ok::<
            ResponseView,
            ContractErrorView,
        >(empty_response()) && final(state)@ == readdressed(old(state)@, new_address@),
        !authorized(old(state)@, ctx@.sender) ==> result_view(r) == Err::<
            ResponseView,
            ContractErrorView,
        >(ContractErrorView::Unauthorized) && final(state)@ == old(state)@,
        final(state)@.pool == old(state)@.pool,
        final(state)@.mint_ratio == old(state)@.mint_ratio,
{
    if !(state.evacuate_address == ctx.info.sender) {
        return Err(ContractError::Unauthorized {  });
    }
    state.evacuate_address = new_address;
    let messages: Vec<CosmosMsg> = Vec::new();
    let attributes: Vec<Attribute> = Vec::new();
    assert(messages.deep_view() =~= Seq::empty());
    assert(attributes.deep_view() =~= Seq::empty());
    Ok(Response { messages, attributes })
}

/// What a request comes to.
pub open spec fn executed(state: StateView, ctx: ExecuteContextView, msg: ExecuteMsgView) -> Outcome<
    ResponseView,
> {
    match msg {
        ExecuteMsgView::Deposit => match deposited(state, ctx) {
            Ok(response) => Outcome::Done(response),
            Err(e) => Outcome::Refused(e),
        },
        ExecuteMsgView::Evacuate { asset } => evacuated(state, ctx.deps, asset),
        ExecuteMsgView::ChangeEvacuateAddress { new_address } => if authorized(state, ctx.sender) {
            Outcome::Done(empty_response())
        } else {
            Outcome::Refused(ContractErrorView::Unauthorized)
        },
    }
}

/// The custody state after a request. Only an authorized change of the
/// evacuation address leaves another state than it found.
pub open spec fn state_after(
    state: StateView,
    ctx: ExecuteContextView,
    msg: ExecuteMsgView,
) -> StateView {
    match msg {
        ExecuteMsgView::ChangeEvacuateAddress { new_address } => if authorized(state, ctx.sender) {
            readdressed(state, new_address)
        } else {
            state
        },
        _ => state,
    }
}

/// No request changes the locked asset or the mint ratio, and none but an
/// authorized change of the evacuation address changes anything of the state.
pub proof fn lemma_state_after_keeps_pool_and_ratio(
    state: StateView,
    ctx: ExecuteContextView,
    msg: ExecuteMsgView,
)
    ensures
        state_after(state, ctx, msg).pool == state.pool,
        state_after(state, ctx, msg).mint_ratio == state.mint_ratio,
        state_after(state, ctx, msg) != state ==> msg is ChangeEvacuateAddress && authorized(
            state,
            ctx.sender,
        ),
        executed(state, ctx, msg) !is Done ==> state_after(state, ctx, msg) == state,
{
}

/// A request is answered from the answers to its own questions: what the host
/// reports on anything else makes no difference to the response or to the state.
pub proof fn lemma_only_asked_answers_count(
    state: StateView,
    one: ExecuteContextView,
    other: ExecuteContextView,
    msg: ExecuteMsgView,
)
    requires
        one.contract_address == other.contract_address,
        one.sender == other.sender,
        one.funds == other.funds,
        same_answers(asked(state, msg), one.deps, other.deps),
    ensures
        executed(state, one, msg) == executed(state, other, msg),
        state_after(state, one, msg) == state_after(state, other, msg),
{
}

/// Whether `message` pays out any amount of the denomination `pool`.
pub open spec fn pays_out(message: CosmosMsgView, pool: Seq<char>) -> bool {
    message matches CosmosMsgView::Send { amount, .. } && exists|k: int|
        0 <= k < amount.len() && (#[trigger] amount[k]).denom == pool
}

/// The lock holds: whatever the request and whatever the host reports, no
/// instruction of a response pays the locked asset out of the contract.
pub proof fn lemma_locked_asset_is_never_paid_out(
    state: StateView,
    ctx: ExecuteContextView,
    msg: ExecuteMsgView,
)
    ensures
        executed(state, ctx, msg) matches Outcome::Done(response) ==> forall|i: int|
            0 <= i < response.messages.len() ==> !pays_out(
                #[trigger] response.messages[i],
                state.pool,
            ),
{
    if let Outcome::Done(response) = executed(state, ctx, msg) {
        assert forall|i: int| 0 <= i < response.messages.len() implies !pays_out(
            #[trigger] response.messages[i],
            state.pool,
        ) by {
            match msg {
                ExecuteMsgView::Deposit => {},
                ExecuteMsgView::ChangeEvacuateAddress { .. } => {},
                ExecuteMsgView::Evacuate { asset } => {
                    let recipient = state.evacuate_address;
                    match asset {
                        EvacuateAssetView::Native => {
                            let balances = ctx.deps.balances->Ok_0;
                            lemma_native_transfers_spare_pool(state.pool, balances, recipient);
                            assert(pays_one_balance(
                                response.messages[i],
                                state.pool,
                                balances,
                                recipient,
                            ));
                        },
                        EvacuateAssetView::Cw20 { .. } => {},
                        EvacuateAssetView::Cw721 { .. } => {},
                    }
                },
            }
        }
    }
}

/// The receipt token is registered at creation and never again: no response to
/// a request holds the command that registers a denom.
pub proof fn lemma_requests_never_register_a_denom(
    state: StateView,
    ctx: ExecuteContextView,
    msg: ExecuteMsgView,
)
    ensures
        executed(state, ctx, msg) matches Outcome::Done(response) ==> forall|i: int|
            0 <= i < response.messages.len() ==> !((#[trigger] response.messages[i])
                matches CosmosMsgView::Stargate { type_url, .. } && type_url
                == MsgCreateDenom::TYPE_URL@),
{
    reveal_strlit("/osmosis.tokenfactory.v1beta1.MsgMint");
    reveal_strlit("/osmosis.tokenfactory.v1beta1.MsgCreateDenom");
    assert(MsgMint::TYPE_URL@.len() != MsgCreateDenom::TYPE_URL@.len());
    if let Outcome::Done(response) = executed(state, ctx, msg) {
        assert forall|i: int| 0 <= i < response.messages.len() implies !((
        #[trigger] response.messages[i]) matches CosmosMsgView::Stargate { type_url, .. }
            && type_url == MsgCreateDenom::TYPE_URL@) by {
            match msg {
                ExecuteMsgView::Deposit => {},
                ExecuteMsgView::ChangeEvacuateAddress { .. } => {},
                ExecuteMsgView::Evacuate { asset } => {
                    let recipient = state.evacuate_address;
                    match asset {
                        EvacuateAssetView::Native => {
                            let balances = ctx.deps.balances->Ok_0;
                            lemma_native_transfers_spare_pool(state.pool, balances, recipient);
                            assert(pays_one_balance(
                                response.messages[i],
                                state.pool,
                                balances,
                                recipient,
                            ));
                        },
                        EvacuateAssetView::Cw20 { .. } => {},
                        EvacuateAssetView::Cw721 { .. } => {},
                    }
                },
            }
        }
    }
}

/// Routes a request to its operation and hands back that operation's response.
pub fn execute(state: &mut State, ctx: ExecuteContext, msg: ExecuteMsg) -> (r: Result<
    Response,
    ContractError,
>)
    requires
        msg is Deposit ==> mint_fits(old(state)@, ctx@),
    ensures
        comes_to(result_view(r), executed(old(state)@, ctx@, msg@)),
        final(state)@ == state_after(old(state)@, ctx@, msg@),
{
    match msg {
        ExecuteMsg::Deposit {  } => deposit(state, &ctx),
        ExecuteMsg::Evacuate { asset } => evacuate(state, ctx, asset),
        ExecuteMsg::ChangeEvacuateAddress { new_address } => change_evacuate_address(
            state,
            &ctx,
            new_address,
        ),
    }
}

} // verus!
