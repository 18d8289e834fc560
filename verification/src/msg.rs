//! The requests that the contract answers.

use crate::state::Decimal;
use vstd::prelude::*;

verus! {

/// The request that creates the contract.
#[derive(Clone, Debug, PartialEq, Eq)]
pub struct InstantiateMsg {
    /// The asset to lock.
    pub pool: String,
    /// Receipt tokens minted per unit of the locked asset.
    pub mint_ratio: Decimal,
}

/// The operations of the contract.
#[derive(Clone, Debug, PartialEq, Eq)]
pub enum ExecuteMsg {
    /// Lock the pool tokens sent along for good and mint receipt tokens for them.
    Deposit {},
    /// Sweep assets that are not the locked one to the evacuation address.
    Evacuate { asset: EvacuateAsset },
    /// Name a new evacuation address. Only the current one may do so.
    ChangeEvacuateAddress { new_address: String },
}

/// Which of the contract's holdings to evacuate.
#[derive(Clone, Debug, PartialEq, Eq)]
pub enum EvacuateAsset {
    /// Every native balance but that of the locked asset.
    Native {},
    /// The whole balance of the fungible token kept by `contract`.
    Cw20 { contract: String },
    /// The tokens `token_ids` of the collection kept by `contract`.
    Cw721 { contract: String, token_ids: Vec<String> },
}

/// The mathematical value of an [`EvacuateAsset`].
pub enum EvacuateAssetView {
    Native,
    Cw20 { contract: Seq<char> },
    Cw721 { contract: Seq<char>, token_ids: Seq<Seq<char>> },
}

impl DeepView for EvacuateAsset {
    type V = EvacuateAssetView;

    open spec fn deep_view(&self) -> EvacuateAssetView {
        match self {
            EvacuateAsset::Native {  } => EvacuateAssetView::Native,
            EvacuateAsset::Cw20 { contract } => EvacuateAssetView::Cw20 { contract: contract@ },
            EvacuateAsset::Cw721 { contract, token_ids } => EvacuateAssetView::Cw721 {
                contract: contract@,
                token_ids: token_ids.deep_view(),
            },
        }
    }
}

impl View for EvacuateAsset {
    type V = EvacuateAssetView;

    open spec fn view(&self) -> EvacuateAssetView {
        self.deep_view()
    }
}

/// The mathematical value of an [`ExecuteMsg`].
pub enum ExecuteMsgView {
    Deposit,
    Evacuate { asset: EvacuateAssetView },
    ChangeEvacuateAddress { new_address: Seq<char> },
}

impl DeepView for ExecuteMsg {
    type V = ExecuteMsgView;

    open spec fn deep_view(&self) -> ExecuteMsgView {
        match self {
            ExecuteMsg::Deposit {  } => ExecuteMsgView::Deposit,
            ExecuteMsg::Evacuate { asset } => ExecuteMsgView::Evacuate { asset: asset@ },
            ExecuteMsg::ChangeEvacuateAddress { new_address } => {
                ExecuteMsgView::ChangeEvacuateAddress { new_address: new_address@ }
            },
        }
    }
}

impl View for ExecuteMsg {
    type V = ExecuteMsgView;

    open spec fn view(&self) -> ExecuteMsgView {
        self.deep_view()
    }
}

/// The questions that the contract answers without changing anything.
#[derive(Clone, Copy, Debug, PartialEq, Eq)]
pub enum QueryMsg {
    /// The custody state.
    State {},
    /// The denom of the receipt token.
    TokenAddress {},
}

} // verus!
