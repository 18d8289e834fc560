//! The evacuation engine: from a request and the contract's holdings, as the host
//! read them, to the transfers that move those holdings to the recipient.

use crate::coin::{NativeCoin, NativeCoinView};
use crate::error::{comes_to, result_view, ContractError, ContractErrorView, Outcome};
use crate::msg::{EvacuateAsset, EvacuateAssetView};
use crate::payload::{cw20_transfer, cw20_transfer_json, cw721_transfer, cw721_transfer_json};
use crate::response::{CosmosMsg, CosmosMsgView};
use cosmwasm_std::StdError;
use vstd::prelude::*;

verus! {

/// The locked asset, by the kind of ledger that keeps it.
#[derive(Clone, Debug, PartialEq, Eq)]
pub enum Token {
    /// A native denomination.
    Native(String),
    /// The address of a fungible-token contract.
    Cw20(String),
}

/// The mathematical value of a [`Token`].
pub enum TokenView {
    Native(Seq<char>),
    Cw20(Seq<char>),
}

impl DeepView for Token {
    type V = TokenView;

    open spec fn deep_view(&self) -> TokenView {
        match self {
            Token::Native(denom) => TokenView::Native(denom@),
            Token::Cw20(contract) => TokenView::Cw20(contract@),
        }
    }
}

impl View for Token {
    type V = TokenView;

    open spec fn view(&self) -> TokenView {
        self.deep_view()
    }
}

/// The host's answers to the questions that one invocation may ask of it. An
/// operation reads the answers to its own questions and no others; an answer that
/// is an error ends the operation that asked.
#[derive(Debug)]
pub struct Deps {
    /// Whether the host's validator accepts the stored evacuation address.
    pub evacuate_address: Result<(), StdError>,
    /// Every native balance that the contract holds.
    pub balances: Result<Vec<NativeCoin>, StdError>,
    /// The contract's balance of the fungible token that the request names, once
    /// the host's validator has accepted the address of the token contract.
    pub cw20_balance: Result<u128, StdError>,
}

/// The mathematical value of a [`Deps`].
pub struct DepsView {
    pub evacuate_address: Result<(), StdError>,
    pub balances: Result<Seq<NativeCoinView>, StdError>,
    pub cw20_balance: Result<u128, StdError>,
}

impl DeepView for Deps {
    type V = DepsView;

    open spec fn deep_view(&self) -> DepsView {
        DepsView {
            evacuate_address: self.evacuate_address,
            balances: match self.balances {
                Ok(balances) => Ok(balances.deep_view()),
                Err(e) => Err(e),
            },
            cw20_balance: self.cw20_balance,
        }
    }
}

impl View for Deps {
    type V = DepsView;

    open spec fn view(&self) -> DepsView {
        self.deep_view()
    }
}

/// Where the contract runs.
#[derive(Clone, Debug, PartialEq, Eq)]
pub struct Env {
    /// The contract's own address.
    pub contract_address: String,
}

/// Who called, and with what funds.
#[derive(Clone, Debug, PartialEq, Eq)]
pub struct MessageInfo {
    pub sender: String,
    pub funds: Vec<NativeCoin>,
}

/// All that an operation is given besides the custody state and the request.
#[derive(Debug)]
pub struct ExecuteContext {
    pub deps: Deps,
    pub env: Env,
    pub info: MessageInfo,
}

/// The mathematical value of an [`ExecuteContext`].
pub struct ExecuteContextView {
    pub deps: DepsView,
    pub contract_address: Seq<char>,
    pub sender: Seq<char>,
    pub funds: Seq<NativeCoinView>,
}

impl DeepView for ExecuteContext {
    type V = ExecuteContextView;

    open spec fn deep_view(&self) -> ExecuteContextView {
        ExecuteContextView {
            deps: self.deps@,
            contract_address: self.env.contract_address@,
            sender: self.info.sender@,
            funds: self.info.funds.deep_view(),
        }
    }
}

impl View for ExecuteContext {
    type V = ExecuteContextView;

    open spec fn view(&self) -> ExecuteContextView {
        self.deep_view()
    }
}

/// Whether a balance is not of the locked asset.
pub open spec fn not_pool(lp_token: TokenView) -> spec_fn(NativeCoinView) -> bool {
    |coin: NativeCoinView| lp_token != TokenView::Native(coin.denom)
}

/// The instruction that pays one balance out to `recipient`.
pub open spec fn send_to(recipient: Seq<char>) -> spec_fn(NativeCoinView) -> CosmosMsgView {
    |coin: NativeCoinView| CosmosMsgView::Send { to_address: recipient, amount: seq![coin] }
}

/// The transfers that evacuate native balances: one for each balance that is not
/// of the locked asset, in the order of the balances.
pub open spec fn native_transfers(
    lp_token: TokenView,
    balances: Seq<NativeCoinView>,
    recipient: Seq<char>,
) -> Seq<CosmosMsgView> {
    balances.filter(not_pool(lp_token)).map_values(send_to(recipient))
}

/// The instruction that has `contract_addr` execute `msg`, with no funds sent along.
pub open spec fn execute_msg(contract_addr: Seq<char>, msg: Seq<u8>) -> CosmosMsgView {
    CosmosMsgView::Execute { contract_addr, msg, funds: Seq::empty() }
}

/// What the evacuation of a fungible token comes to: a refusal for the locked
/// asset itself, else one transfer of the whole balance.
pub open spec fn cw20_evacuation(
    lp_token: TokenView,
    contract: Seq<char>,
    balance: u128,
    recipient: Seq<char>,
) -> Outcome<Seq<CosmosMsgView>> {
    if lp_token == TokenView::Cw20(contract) {
        Outcome::Refused(ContractErrorView::InvalidFunds("Cannot evacuate the pool token"@))
    } else {
        match cw20_transfer_json(recipient, balance) {
            Some(msg) => Outcome::Done(seq![execute_msg(contract, msg)]),
            None => Outcome::EncoderFailed,
        }
    }
}

/// The instruction that tells the collection at `contract` to transfer the token
/// `token_id` to `recipient`; `None` where the encoder gives no text for it.
pub open spec fn cw721_transfer_msg(
    contract: Seq<char>,
    token_id: Seq<char>,
    recipient: Seq<char>,
) -> Option<CosmosMsgView> {
    match cw721_transfer_json(recipient, token_id) {
        Some(msg) => Some(execute_msg(contract, msg)),
        None => None,
    }
}

/// What the evacuation of the tokens `token_ids` of one collection comes to: one
/// transfer for each entry of the list, in the order of the list.
pub open spec fn cw721_evacuation(
    contract: Seq<char>,
    token_ids: Seq<Seq<char>>,
    recipient: Seq<char>,
) -> Outcome<Seq<CosmosMsgView>> {
    if forall|i: int|
        0 <= i < token_ids.len() ==> cw721_transfer_msg(contract, #[trigger] token_ids[i], recipient)
            is Some {
        Outcome::Done(
            Seq::new(
                token_ids.len(),
                |i: int| cw721_transfer_msg(contract, token_ids[i], recipient)->0,
            ),
        )
    } else {
        Outcome::EncoderFailed
    }
}

/// What an evacuation comes to.
pub open spec fn evacuation(
    deps: DepsView,
    lp_token: TokenView,
    request: EvacuateAssetView,
    recipient: Seq<char>,
) -> Outcome<Seq<CosmosMsgView>> {
    match request {
        EvacuateAssetView::Native => match deps.balances {
            Ok(balances) => Outcome::Done(native_transfers(lp_token, balances, recipient)),
            Err(e) => Outcome::Refused(ContractErrorView::Std(e)),
        },
        EvacuateAssetView::Cw20 { contract } => match deps.cw20_balance {
            Ok(balance) => cw20_evacuation(lp_token, contract, balance, recipient),
            Err(e) => Outcome::Refused(ContractErrorView::Std(e)),
        },
        EvacuateAssetView::Cw721 { contract, token_ids } => cw721_evacuation(
            contract,
            token_ids,
            recipient,
        ),
    }
}

/// Appending a balance to the holdings appends its transfer, unless the balance
/// is of the locked asset.
pub proof fn lemma_native_transfers_push(
    lp_token: TokenView,
    balances: Seq<NativeCoinView>,
    coin: NativeCoinView,
    recipient: Seq<char>,
)
    ensures
        native_transfers(lp_token, balances.push(coin), recipient) == (if not_pool(lp_token)(
            coin,
        ) {
            native_transfers(lp_token, balances, recipient).push(send_to(recipient)(coin))
        } else {
            native_transfers(lp_token, balances, recipient)
        }),
{
    balances.lemma_filter_push(coin, not_pool(lp_token));
    balances.filter(not_pool(lp_token)).lemma_push_map_commute(send_to(recipient), coin);
}

/// Whether `message` pays to `recipient` exactly one of `balances`, and one that is
/// not of the denomination `pool`.
pub open spec fn pays_one_balance(
    message: CosmosMsgView,
    pool: Seq<char>,
    balances: Seq<NativeCoinView>,
    recipient: Seq<char>,
) -> bool {
    &&& message matches CosmosMsgView::Send { to_address, amount }
    &&& to_address == recipient
    &&& amount.len() == 1
    &&& amount[0].denom != pool
    &&& balances.contains(amount[0])
}

/// A native evacuation pays nothing of the locked asset: every transfer goes to
/// the recipient and carries one balance, which is among the holdings and is not
/// of the locked asset.
pub proof fn lemma_native_transfers_spare_pool(
    pool: Seq<char>,
    balances: Seq<NativeCoinView>,
    recipient: Seq<char>,
)
    ensures
        forall|i: int|
            0 <= i < native_transfers(TokenView::Native(pool), balances, recipient).len()
                ==> pays_one_balance(
                #[trigger] native_transfers(TokenView::Native(pool), balances, recipient)[i],
                pool,
                balances,
                recipient,
            ),
{
    let lp_token = TokenView::Native(pool);
    let swept = balances.filter(not_pool(lp_token));
    let transfers = native_transfers(lp_token, balances, recipient);
    assert forall|i: int| 0 <= i < transfers.len() implies pays_one_balance(
        #[trigger] transfers[i],
        pool,
        balances,
        recipient,
    ) by {
        balances.lemma_filter_pred(not_pool(lp_token), i);
        assert(swept.contains(swept[i]));
        balances.lemma_filter_contains_rev(not_pool(lp_token), swept[i]);
        assert(transfers[i] == send_to(recipient)(swept[i]));
    }
}

/// A native evacuation leaves out nothing but the locked asset: every balance of
/// another denomination has its transfer.
pub proof fn lemma_native_transfers_sweep_rest(
    lp_token: TokenView,
    balances: Seq<NativeCoinView>,
    recipient: Seq<char>,
    j: int,
)
    requires
        0 <= j < balances.len(),
        lp_token != TokenView::Native(balances[j].denom),
    ensures
        native_transfers(lp_token, balances, recipient).contains(send_to(recipient)(balances[j])),
{
    let swept = balances.filter(not_pool(lp_token));
    balances.lemma_filter_contains(not_pool(lp_token), j);
    let i = choose|i: int| 0 <= i < swept.len() && swept[i] == balances[j];
    assert(native_transfers(lp_token, balances, recipient)[i] == send_to(recipient)(balances[j]));
}

/// Where the contract holds nothing, or nothing but the locked asset, a native
/// evacuation has no transfer to make.
pub proof fn lemma_native_transfers_of_pool_only(
    pool: Seq<char>,
    balances: Seq<NativeCoinView>,
    recipient: Seq<char>,
)
    requires
        forall|i: int| 0 <= i < balances.len() ==> (#[trigger] balances[i]).denom == pool,
    ensures
        native_transfers(TokenView::Native(pool), balances, recipient) == Seq::<
            CosmosMsgView,
        >::empty(),
{
    let lp_token = TokenView::Native(pool);
    let swept = balances.filter(not_pool(lp_token));
    if swept.len() > 0 {
        balances.lemma_filter_pred(not_pool(lp_token), 0);
        assert(swept.contains(swept[0]));
        balances.lemma_filter_contains_rev(not_pool(lp_token), swept[0]);
        assert(false);
    }
    assert(native_transfers(lp_token, balances, recipient) =~= Seq::empty());
}

/// The evacuation of a fungible token other than the locked asset is one
/// instruction, whatever the balance, zero included: the token contract is told
/// to transfer the whole balance to the recipient.
pub proof fn lemma_cw20_evacuation_is_one_transfer(
    lp_token: TokenView,
    contract: Seq<char>,
    balance: u128,
    recipient: Seq<char>,
)
    requires
        lp_token != TokenView::Cw20(contract),
        cw20_transfer_json(recipient, balance) is Some,
    ensures
        cw20_evacuation(lp_token, contract, balance, recipient) == Outcome::Done(
            seq![execute_msg(contract, cw20_transfer_json(recipient, balance)->0)],
        ),
{
}

/// The evacuation of tokens of a collection makes one instruction for each entry
/// of the list, in the order of the list: the collection is told to transfer that
/// token to the recipient.
pub proof fn lemma_cw721_evacuation_keeps_order(
    contract: Seq<char>,
    token_ids: Seq<Seq<char>>,
    recipient: Seq<char>,
)
    ensures
        cw721_evacuation(contract, token_ids, recipient) matches Outcome::Done(messages)
            ==> messages.len() == token_ids.len(),
        cw721_evacuation(contract, token_ids, recipient) matches Outcome::Done(messages)
            ==> forall|i: int|
            0 <= i < token_ids.len() ==> cw721_transfer_msg(contract, token_ids[i], recipient)
                == Some(#[trigger] messages[i]),
        !(cw721_evacuation(contract, token_ids, recipient) is Refused),
{
}

/// Whether `coin` is of the locked asset.
fn is_pool(lp_token: &Token, coin: &NativeCoin) -> (held: bool)
    ensures
        held == !not_pool(lp_token@)(coin@),
{
    match lp_token {
        Token::Native(denom) => coin.denom == *denom,
        Token::Cw20(_) => false,
    }
}

/// The transfers that pay every balance but that of the locked asset out to
/// `recipient`, each balance in an instruction of its own.
pub fn evacuate_native(lp_token: &Token, balances: &Vec<NativeCoin>, recipient: &str) -> (messages:
    Vec<CosmosMsg>)
    ensures
        messages.deep_view() == native_transfers(lp_token@, balances.deep_view(), recipient@),
{
    let mut messages: Vec<CosmosMsg> = Vec::new();
    let mut i: usize = 0;
    proof {
        reveal(Seq::filter);
        assert(balances.deep_view().take(0) =~= Seq::empty());
        assert(messages.deep_view() =~= Seq::empty());
    }
    while i < balances.len()
        invariant
            i <= balances.len(),
            messages.deep_view() == native_transfers(
                lp_token@,
                balances.deep_view().take(i as int),
                recipient@,
            ),
        decreases balances.len() - i,
    {
        let balance = &balances[i];
        proof {
            lemma_native_transfers_push(
                lp_token@,
                balances.deep_view().take(i as int),
                balance@,
                recipient@,
            );
            assert(balances.deep_view().take(i + 1) =~= balances.deep_view().take(i as int).push(
                balance@,
            ));
        }
        if !is_pool(lp_token, balance) {
            let ghost before = messages.deep_view();
            let message = CosmosMsg::Send {
                to_address: recipient.to_owned(),
                amount: vec![balance.duplicate()],
            };
            assert(message.deep_view() == send_to(recipient@)(balance@)) by {
                assert(message->Send_amount.deep_view() =~= seq![balance@]);
            }
            messages.push(message);
            assert(messages.deep_view() =~= before.push(message.deep_view()));
        }
        i += 1;
    }
    assert(balances.deep_view().take(balances.len() as int) =~= balances.deep_view());
    messages
}

/// The instruction that has `contract_addr` execute what an encoder produced, or
/// the encoder's failure.
pub fn wasm_execute(contract_addr: &str, payload: Result<Vec<u8>, StdError>) -> (r: Result<
    CosmosMsg,
    ContractError,
>)
    ensures
        result_view(r) == (match payload {
            Ok(msg) => Ok::<CosmosMsgView, ContractErrorView>(execute_msg(contract_addr@, msg@)),
            Err(e) => Err::<CosmosMsgView, ContractErrorView>(ContractErrorView::Std(e)),
        }),
{
    match payload {
        Ok(msg) => {
            let funds: Vec<NativeCoin> = Vec::new();
            assert(funds.deep_view() =~= Seq::empty());
            Ok(CosmosMsg::Execute { contract_addr: contract_addr.to_owned(), msg, funds })
        },
        Err(e) => Err(ContractError::Std(e)),
    }
}

/// The transfer of the contract's whole balance of one fungible token to
/// `recipient`. The locked asset itself is refused.
pub fn evacuate_cw20(lp_token: &Token, contract: &String, balance: u128, recipient: &str) -> (r:
    Result<Vec<CosmosMsg>, ContractError>)
    ensures
        comes_to(result_view(r), cw20_evacuation(lp_token@, contract@, balance, recipient@)),
{
    if let Token::Cw20(pool) = lp_token {
        if *pool == *contract {
            return Err(ContractError::InvalidFunds("Cannot evacuate the pool token".to_owned()));
        }
    }
    match wasm_execute(contract.as_str(), cw20_transfer(recipient, balance)) {
        Ok(message) => {
            let messages = vec![message];
            assert(messages.deep_view() =~= seq![message.deep_view()]);
            Ok(messages)
        },
        Err(e) => Err(e),
    }
}

/// The transfers of the tokens `token_ids` of the collection at `contract` to
/// `recipient`: one for each entry, in the order given, repeated entries included.
pub fn evacuate_cw721(contract: &str, token_ids: &Vec<String>, recipient: &str) -> (r: Result<
    Vec<CosmosMsg>,
    ContractError,
>)
    ensures
        comes_to(
            result_view(r),
            cw721_evacuation(contract@, token_ids.deep_view(), recipient@),
        ),
{
    let mut messages: Vec<CosmosMsg> = Vec::new();
    let mut i: usize = 0;
    let ghost ids = token_ids.deep_view();
    while i < token_ids.len()
        invariant
            i <= token_ids.len(),
            ids == token_ids.deep_view(),
            messages.len() == i,
            forall|j: int|
                0 <= j < i ==> cw721_transfer_msg(contract@, #[trigger] ids[j], recipient@) is Some,
            forall|j: int|
                0 <= j < i ==> cw721_transfer_msg(contract@, ids[j], recipient@) == Some(
                    (#[trigger] messages[j]).deep_view(),
                ),
        decreases token_ids.len() - i,
    {
        assert(ids[i as int] == token_ids[i as int]@);
        match wasm_execute(contract, cw721_transfer(recipient, token_ids[i].as_str())) {
            Ok(message) => {
                messages.push(message);
            },
            Err(e) => {
                return Err(e);
            },
        }
        i += 1;
    }
    assert(messages.deep_view() =~= cw721_evacuation(contract@, ids, recipient@)->Done_0);
    Ok(messages)
}

/// The transfers that move the holdings which `request` names to `recipient`.
///
/// Native balances and the balance of a fungible token are taken from the host's
/// answers in `ctx`; an answer that is an error is passed on. The tokens of a
/// collection are taken from the request as they stand. The host is trusted to
/// have validated `recipient`.
pub fn evacuate(
    ctx: ExecuteContext,
    lp_token: Token,
    request: EvacuateAsset,
    recipient: String,
) -> (r: Result<Vec<CosmosMsg>, ContractError>)
    ensures
        comes_to(result_view(r), evacuation(ctx.deps@, lp_token@, request@, recipient@)),
{
    match request {
        EvacuateAsset::Native {  } => match ctx.deps.balances {
            Ok(balances) => Ok(evacuate_native(&lp_token, &balances, recipient.as_str())),
            Err(e) => Err(ContractError::Std(e)),
        },
        EvacuateAsset::Cw20 { contract } => match ctx.deps.cw20_balance {
            Ok(balance) => evacuate_cw20(&lp_token, &contract, balance, recipient.as_str()),
            Err(e) => Err(ContractError::Std(e)),
        },
        EvacuateAsset::Cw721 { contract, token_ids } => evacuate_cw721(
            contract.as_str(),
            &token_ids,
            recipient.as_str(),
        ),
    }
}

} // verus!
