use vstd::prelude::*;

use crate::state::{Coin, CoinView, Config, SwapOrder};

verus! {

/// What the market is started with.
#[derive(Debug, PartialEq, Eq)]
pub struct InstantiateMsg {
    /// Owner of the market; the sender when absent.
    pub owner: Option<String>,
}

/// The calls that change the market.
#[derive(Debug, PartialEq, Eq)]
pub enum ExecuteMsg {
    /// Hands the configuration over to a new owner. Only the owner may.
    UpdateConfig { new_owner: String },
    /// Offers `coin_in` against `coin_out` until `timeout` seconds from now,
    /// to anyone or to `taker` alone.
    CreateSwapOrder { coin_in: Coin, coin_out: Coin, taker: Option<String>, timeout: u64 },
    /// Takes the order `order_id` of `maker`, attaching its `coin_out`.
    AcceptSwapOrder { order_id: u64, maker: String },
    /// Completes an accepted order; made by the maker, through its grant, with
    /// its `coin_in` attached.
    ConfirmSwapOrder { order_id: u64, maker: String },
}

/// The reads of the market.
#[derive(Debug, PartialEq, Eq)]
pub enum QueryMsg {
    /// The configuration.
    Config {},
    /// Every order that has not timed out.
    AllSwapOrders {},
    /// The orders of one maker that have not timed out.
    SwapOrdersByMaker { maker: String },
}

/// Orders that have not timed out, with their maker and id.
#[derive(Debug, PartialEq, Eq)]
pub struct AllSwapOrdersResponse {
    pub orders: Vec<((String, u64), SwapOrder)>,
}

/// One maker's orders that have not timed out, with their id.
#[derive(Debug, PartialEq, Eq)]
pub struct SwapOrdersByMakerResponse {
    pub orders: Vec<(u64, SwapOrder)>,
}

/// The answer to a [`QueryMsg`].
#[derive(Debug, PartialEq, Eq)]
pub enum QueryResponse {
    Config(Config),
    AllSwapOrders(AllSwapOrdersResponse),
    SwapOrdersByMaker(SwapOrdersByMakerResponse),
}

/// Who makes a call, and the funds attached to it.
#[derive(Debug, PartialEq, Eq)]
pub struct MessageInfo {
    pub sender: String,
    pub funds: Vec<Coin>,
}

/// Where and when a call runs.
#[derive(Debug, PartialEq, Eq)]
pub struct Env {
    /// Block time, in seconds.
    pub block_time: u64,
    /// The market's own address.
    pub contract_address: String,
}

pub open spec fn coins_view(funds: Seq<Coin>) -> Seq<CoinView> {
    funds.map_values(|c: Coin| c@)
}

/// An instruction to the ledger: send `amount` from the market's custody to
/// `to_address`.
#[derive(Debug, PartialEq, Eq)]
pub struct Transfer {
    pub to_address: String,
    pub amount: Coin,
}

pub struct TransferView {
    pub to_address: Seq<char>,
    pub amount: CoinView,
}

impl View for Transfer {
    type V = TransferView;

    open spec fn view(&self) -> TransferView {
        TransferView { to_address: self.to_address@, amount: self.amount@ }
    }
}

/// A message dispatched to the host, of type `type_url` and encoding
/// `value`; the host reports back under `reply_id` only if it fails.
#[derive(Debug, PartialEq, Eq)]
pub struct DelegatedCall {
    pub type_url: String,
    pub value: Vec<u8>,
    pub reply_id: u64,
}

} // verus!
