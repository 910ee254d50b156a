use vstd::prelude::*;

use crate::error::{
    generic_err, not_found, reports_same_denom, reports_unavailable, reports_wrong_coin,
    ContractError,
};
use crate::msg::{
    coins_view, AllSwapOrdersResponse, DelegatedCall, Env, InstantiateMsg, MessageInfo, QueryMsg,
    QueryResponse, SwapOrdersByMakerResponse, Transfer, TransferView,
};
use crate::state::{
    opt_string_view, Coin, CoinView, Config, OrderPointer, OrderPointerView, OrderStatus,
    SwapOrder, SwapOrderView,
};
use crate::store::{
    active_at, active_of_at, keyed_view, maker_keyed_view, next_id, well_formed_order, Market,
    MarketView,
};
use crate::utils::{
    authz_payload, check_correct_coins, create_authz_encoded_message, is_available,
    msg_exec_type_url, msg_exec_type_url_spec, u64_to_string, valid_denom, validate_coins_number,
    validate_different_denoms, validate_native_denom, validate_status_and_expiration,
};

verus! {

/// The id under which the host reports a failed settlement.
pub const CONFIRM_ORDER_REPLY_ID: u64 = 1;

/// Why a call is turned down.
pub enum Rejection {
    /// The wrong number of coins is attached.
    FundsCount,
    /// Both sides of the order have the same denomination.
    SameDenom,
    /// A denomination is malformed.
    InvalidDenom,
    /// The host refused an address.
    InvalidAddress,
    /// The maker tries to take its own order.
    SenderIsMaker,
    /// No such order, or no settlement in flight.
    NotFound,
    /// The order is not in the required status, or has timed out.
    NotAvailable,
    /// The coin attached is not the one the order asks for.
    WrongCoin,
    /// The caller may not make this call.
    Unauthorized,
}

// ---------------------------------------------------------------- creation

/// Why `create` is turned down, checked in this order; `None` if it goes through.
pub open spec fn create_rejection(
    coin_in: CoinView,
    coin_out: CoinView,
    n_funds: nat,
    taker_accepted: bool,
) -> Option<Rejection> {
    if coin_in.denom == coin_out.denom {
        Some(Rejection::SameDenom)
    } else if !valid_denom(coin_in.denom) || !valid_denom(coin_out.denom) {
        Some(Rejection::InvalidDenom)
    } else if n_funds != 0 {
        Some(Rejection::FundsCount)
    } else if !taker_accepted {
        Some(Rejection::InvalidAddress)
    } else {
        None
    }
}

/// The order that `create` stores.
pub open spec fn new_order(
    coin_in: CoinView,
    coin_out: CoinView,
    taker: Option<Seq<char>>,
    now: u64,
    timeout: u64,
) -> SwapOrderView {
    SwapOrderView {
        coin_in,
        coin_out,
        taker,
        timeout: (now + timeout) as u64,
        status: OrderStatus::Open,
    }
}

/// The market after `maker` creates an order: it is stored under the
/// counter, which moves on.
pub open spec fn created(
    m: MarketView,
    maker: Seq<char>,
    coin_in: CoinView,
    coin_out: CoinView,
    taker: Option<Seq<char>>,
    now: u64,
    timeout: u64,
) -> MarketView {
    MarketView {
        counter: (m.counter + 1) as u64,
        orders: m.orders.insert((maker, m.counter), new_order(coin_in, coin_out, taker, now, timeout)),
        ..m
    }
}

/// The checks of a new order that precede the taker's: distinct and
/// well-formed denominations, and no funds attached.
pub fn validate_swap_order(info: &MessageInfo, coin_in: &Coin, coin_out: &Coin) -> (r: Result<(), ContractError>)
    ensures
        ({
            let rej = create_rejection(coin_in@, coin_out@, info.funds@.len(), true);
            &&& r is Ok <==> rej is None
            &&& rej == Some(Rejection::SameDenom) ==> (r matches Err(e) && reports_same_denom(e, coin_in.denom@))
            &&& rej == Some(Rejection::InvalidDenom) ==> (r matches Err(ContractError::Std(_)))
            &&& rej == Some(Rejection::FundsCount) ==> r == Err::<(), ContractError>(
                (ContractError::FundsError { accepted: 0, received: info.funds@.len() as u64 }),
            )
        }),
{
    if let Err(e) = validate_different_denoms(&coin_in.denom, &coin_out.denom) {
        return Err(e);
    }
    if let Err(e) = validate_native_denom(coin_in.denom.as_str()) {
        return Err(ContractError::Std(e));
    }
    if let Err(e) = validate_native_denom(coin_out.denom.as_str()) {
        return Err(ContractError::Std(e));
    }
    validate_coins_number(info.funds.as_slice(), 0)
}

/// Creates an order of the sender, offering `coin_in` against `coin_out`
/// until `timeout` seconds from now. `taker` is the requested counterparty
/// as the host's address check returned it. Returns the id of the order.
pub fn create_swap_order(
    store: &mut Market,
    env: &Env,
    info: &MessageInfo,
    coin_in: Coin,
    coin_out: Coin,
    taker: Result<Option<String>, cosmwasm_std::StdError>,
    timeout: u64,
) -> (r: Result<u64, ContractError>)
    requires
        old(store).wf(),
        create_rejection(coin_in@, coin_out@, info.funds@.len(), taker is Ok) is None ==> {
            &&& old(store)@.counter < u64::MAX
            &&& env.block_time + timeout <= u64::MAX
        },
    ensures
        final(store).wf(),
        ({
            let m = old(store)@;
            let rej = create_rejection(coin_in@, coin_out@, info.funds@.len(), taker is Ok);
            &&& r is Ok <==> rej is None
            &&& r is Err ==> final(store)@ == m
            &&& (r matches Ok(id) ==> id == m.counter && final(store)@ == created(
                m,
                info.sender@,
                coin_in@,
                coin_out@,
                opt_string_view(taker->Ok_0),
                env.block_time,
                timeout,
            ))
            &&& rej == Some(Rejection::SameDenom) ==> (r matches Err(e) && reports_same_denom(e, coin_in.denom@))
            &&& rej == Some(Rejection::InvalidDenom) ==> (r matches Err(ContractError::Std(_)))
            &&& rej == Some(Rejection::FundsCount) ==> r == Err::<u64, ContractError>(
                (ContractError::FundsError { accepted: 0, received: info.funds@.len() as u64 }),
            )
            &&& rej == Some(Rejection::InvalidAddress) ==> r == Err::<u64, ContractError>(
                ContractError::Std(taker->Err_0),
            )
        }),
{
    if let Err(e) = validate_swap_order(info, &coin_in, &coin_out) {
        return Err(e);
    }
    let taker = match taker {
        Ok(t) => t,
        Err(e) => {
            return Err(ContractError::Std(e));
        },
    };
    let swap_order = SwapOrder {
        coin_in,
        coin_out,
        taker,
        timeout: env.block_time + timeout,
        status: OrderStatus::Open,
    };
    let order_id = next_id(store);
    store.save_order(info.sender.clone(), order_id, swap_order);
    Ok(order_id)
}

// -------------------------------------------------------------- acceptance

/// Why `accept` is turned down, checked in this order; `None` if it goes through.
pub open spec fn accept_rejection(
    m: MarketView,
    sender: Seq<char>,
    funds: Seq<CoinView>,
    now: u64,
    maker: Seq<char>,
    order_id: u64,
) -> Option<Rejection> {
    if funds.len() != 1 {
        Some(Rejection::FundsCount)
    } else if sender == maker {
        Some(Rejection::SenderIsMaker)
    } else if !m.orders.contains_key((maker, order_id)) {
        Some(Rejection::NotFound)
    } else {
        let o = m.orders[(maker, order_id)];
        if !is_available(o.status, o.timeout, OrderStatus::Open, now) {
            Some(Rejection::NotAvailable)
        } else if funds[0] != o.coin_out {
            Some(Rejection::WrongCoin)
        } else if o.taker is Some && o.taker->0 != sender {
            Some(Rejection::Unauthorized)
        } else {
            None
        }
    }
}

/// The market after `taker` accepts the order: the order records its taker
/// and is accepted, and the pointer names the settlement now in flight.
pub open spec fn accepted(m: MarketView, taker: Seq<char>, maker: Seq<char>, order_id: u64) -> MarketView {
    let o = m.orders[(maker, order_id)];
    MarketView {
        orders: m.orders.insert(
            (maker, order_id),
            SwapOrderView { taker: Some(taker), status: OrderStatus::Accepted, ..o },
        ),
        pointer: Some(OrderPointerView { order_id, maker, taker }),
        ..m
    }
}

/// `call` makes the maker settle the order through its grant to `contract`,
/// and asks to hear back only on failure.
pub open spec fn is_settlement_call(
    call: DelegatedCall,
    contract: Seq<char>,
    order_id: u64,
    maker: Seq<char>,
    coin_in: CoinView,
) -> bool {
    &&& call.type_url@ == msg_exec_type_url_spec()
    &&& call.value@ == authz_payload(contract, order_id, maker, coin_in)
    &&& call.reply_id == CONFIRM_ORDER_REPLY_ID
}

/// The sender takes the order `order_id` of `maker`, with its `coin_out`
/// attached. Returns the delegated call that makes the maker settle.
pub fn accept_swap_order(
    store: &mut Market,
    info: &MessageInfo,
    env: &Env,
    order_id: u64,
    maker: String,
) -> (r: Result<DelegatedCall, ContractError>)
    requires
        old(store).wf(),
    ensures
        final(store).wf(),
        ({
            let m = old(store)@;
            let rej = accept_rejection(m, info.sender@, coins_view(info.funds@), env.block_time, maker@, order_id);
            let o = m.orders[(maker@, order_id)];
            &&& r is Ok <==> rej is None
            &&& r is Err ==> final(store)@ == m
            &&& (r matches Ok(call) ==> {
                &&& rej is None
                &&& final(store)@ == accepted(m, info.sender@, maker@, order_id)
                &&& is_settlement_call(call, env.contract_address@, order_id, maker@, o.coin_in)
            })
            &&& rej == Some(Rejection::FundsCount) ==> r == Err::<DelegatedCall, ContractError>(
                (ContractError::FundsError { accepted: 1, received: info.funds@.len() as u64 }),
            )
            &&& rej == Some(Rejection::SenderIsMaker) ==> r == Err::<DelegatedCall, ContractError>(
                (ContractError::SenderIsMaker {}),
            )
            &&& rej == Some(Rejection::NotFound) ==> (r matches Err(ContractError::Std(_)))
            &&& rej == Some(Rejection::NotAvailable) ==> (r matches Err(e) && reports_unavailable(e, o.status, o.timeout))
            &&& rej == Some(Rejection::WrongCoin) ==> (r matches Err(e) && reports_wrong_coin(e, info.funds@[0]@, o.coin_out))
            &&& rej == Some(Rejection::Unauthorized) ==> r == Err::<DelegatedCall, ContractError>(ContractError::Unauthorized)
        }),
{
    if let Err(e) = validate_coins_number(info.funds.as_slice(), 1) {
        return Err(e);
    }
    if info.sender == maker {
        return Err(ContractError::SenderIsMaker {});
    }
    let order = match store.load_order(&maker, order_id) {
        Some(o) => o,
        None => {
            return Err(ContractError::Std(not_found("cw_atomic_swap::state::SwapOrder")));
        },
    };
    if let Err(e) = validate_status_and_expiration(&order, OrderStatus::Open, env.block_time) {
        return Err(e);
    }
    if let Err(e) = check_correct_coins(&info.funds[0], &order.coin_out) {
        return Err(e);
    }
    if let Some(taker) = &order.taker {
        if *taker != info.sender {
            return Err(ContractError::Unauthorized);
        }
    }
    let value = match create_authz_encoded_message(&env.contract_address, order_id, &maker, &order.coin_in) {
        Ok(v) => v,
        Err(e) => {
            return Err(e);
        },
    };
    let accepted_order = SwapOrder {
        coin_in: order.coin_in,
        coin_out: order.coin_out,
        taker: Some(info.sender.clone()),
        timeout: order.timeout,
        status: OrderStatus::Accepted,
    };
    store.save_order(maker.clone(), order_id, accepted_order);
    store.save_pointer(OrderPointer { order_id, maker, taker: info.sender.clone() });
    Ok(DelegatedCall { type_url: msg_exec_type_url(), value, reply_id: CONFIRM_ORDER_REPLY_ID })
}

// ------------------------------------------------------------ confirmation

/// Why `confirm` is turned down, checked in this order; `None` if it goes through.
pub open spec fn confirm_rejection(
    m: MarketView,
    sender: Seq<char>,
    funds: Seq<CoinView>,
    now: u64,
    maker: Seq<char>,
    order_id: u64,
) -> Option<Rejection> {
    if funds.len() != 1 {
        Some(Rejection::FundsCount)
    } else if maker != sender {
        Some(Rejection::Unauthorized)
    } else if !m.orders.contains_key((maker, order_id)) {
        Some(Rejection::NotFound)
    } else {
        let o = m.orders[(maker, order_id)];
        if !is_available(o.status, o.timeout, OrderStatus::Accepted, now) {
            Some(Rejection::NotAvailable)
        } else if funds[0] != o.coin_in {
            Some(Rejection::WrongCoin)
        } else {
            None
        }
    }
}

/// The market after the order is confirmed: the order is settled and no
/// settlement is in flight.
pub open spec fn confirmed(m: MarketView, maker: Seq<char>, order_id: u64) -> MarketView {
    let o = m.orders[(maker, order_id)];
    MarketView {
        orders: m.orders.insert((maker, order_id), SwapOrderView { status: OrderStatus::Confirmed, ..o }),
        pointer: None,
        ..m
    }
}

/// The two legs of a settled order: `coin_out` to the maker, `coin_in` to
/// the taker.
pub open spec fn settlement(m: MarketView, maker: Seq<char>, order_id: u64) -> Seq<TransferView> {
    let o = m.orders[(maker, order_id)];
    seq![
        TransferView { to_address: maker, amount: o.coin_out },
        TransferView { to_address: o.taker->0, amount: o.coin_in },
    ]
}

/// The maker completes its accepted order `order_id`, with its `coin_in`
/// attached. Returns the transfers that settle both legs.
pub fn confirm_swap_order(
    store: &mut Market,
    info: &MessageInfo,
    env: &Env,
    order_id: u64,
    maker: String,
) -> (r: Result<Vec<Transfer>, ContractError>)
    requires
        old(store).wf(),
    ensures
        final(store).wf(),
        ({
            let m = old(store)@;
            let rej = confirm_rejection(m, info.sender@, coins_view(info.funds@), env.block_time, maker@, order_id);
            let o = m.orders[(maker@, order_id)];
            &&& r is Ok <==> rej is None
            &&& r is Err ==> final(store)@ == m
            &&& (r matches Ok(transfers) ==> {
                &&& final(store)@ == confirmed(m, maker@, order_id)
                &&& transfers@.map_values(|t: Transfer| t@) == settlement(m, maker@, order_id)
            })
            &&& rej == Some(Rejection::FundsCount) ==> r == Err::<Vec<Transfer>, ContractError>(
                (ContractError::FundsError { accepted: 1, received: info.funds@.len() as u64 }),
            )
            &&& rej == Some(Rejection::Unauthorized) ==> r == Err::<Vec<Transfer>, ContractError>(ContractError::Unauthorized)
            &&& rej == Some(Rejection::NotFound) ==> (r matches Err(ContractError::Std(_)))
            &&& rej == Some(Rejection::NotAvailable) ==> (r matches Err(e) && reports_unavailable(e, o.status, o.timeout))
            &&& rej == Some(Rejection::WrongCoin) ==> (r matches Err(e) && reports_wrong_coin(e, info.funds@[0]@, o.coin_in))
        }),
{
    if let Err(e) = validate_coins_number(info.funds.as_slice(), 1) {
        return Err(e);
    }
    if maker != info.sender {
        return Err(ContractError::Unauthorized);
    }
    let order = match store.load_order(&info.sender, order_id) {
        Some(o) => o,
        None => {
            return Err(ContractError::Std(not_found("cw_atomic_swap::state::SwapOrder")));
        },
    };
    if let Err(e) = validate_status_and_expiration(&order, OrderStatus::Accepted, env.block_time) {
        return Err(e);
    }
    if let Err(e) = check_correct_coins(&info.funds[0], &order.coin_in) {
        return Err(e);
    }
    let taker = match &order.taker {
        Some(t) => t.clone(),
        None => {
            // unreachable: the store keeps an accepted order with its taker
            proof {
                assert(well_formed_order(order@));
                assert(false);
            }
            return Err(ContractError::Unauthorized);
        },
    };
    let coin_in = order.coin_in.clone();
    let coin_out = order.coin_out.clone();
    let confirmed_order = SwapOrder {
        coin_in: order.coin_in,
        coin_out: order.coin_out,
        taker: order.taker,
        timeout: order.timeout,
        status: OrderStatus::Confirmed,
    };
    store.save_order(info.sender.clone(), order_id, confirmed_order);
    store.remove_pointer();
    let mut transfers: Vec<Transfer> = Vec::new();
    transfers.push(Transfer { to_address: maker, amount: coin_out });
    transfers.push(Transfer { to_address: taker, amount: coin_in });
    assert(transfers@.map_values(|t: Transfer| t@) =~= settlement(old(store)@, info.sender@, order_id));
    Ok(transfers)
}

// ------------------------------------------------------------ compensation

/// Why the failure notification is turned down; `None` if it goes through.
pub open spec fn compensation_rejection(m: MarketView) -> Option<Rejection> {
    match m.pointer {
        None => Some(Rejection::NotFound),
        Some(p) => if m.orders.contains_key((p.maker, p.order_id)) {
            None
        } else {
            Some(Rejection::Unauthorized)
        },
    }
}

/// The market after the settlement in flight failed: its order has failed
/// and no settlement is in flight.
pub open spec fn compensated(m: MarketView) -> MarketView {
    let p = m.pointer->0;
    let o = m.orders[(p.maker, p.order_id)];
    MarketView {
        orders: m.orders.insert((p.maker, p.order_id), SwapOrderView { status: OrderStatus::Failed, ..o }),
        pointer: None,
        ..m
    }
}

/// The refund of a failed settlement: the order's `coin_out`, held in
/// custody since acceptance, back to the taker.
pub open spec fn refund(m: MarketView) -> TransferView {
    let p = m.pointer->0;
    TransferView { to_address: p.taker, amount: m.orders[(p.maker, p.order_id)].coin_out }
}

/// Handles the host's report that the settlement in flight failed: the
/// order fails and the taker gets its funds back. Returns the refund.
pub fn reply_confirm_order(store: &mut Market) -> (r: Result<Transfer, ContractError>)
    requires
        old(store).wf(),
    ensures
        final(store).wf(),
        ({
            let m = old(store)@;
            let rej = compensation_rejection(m);
            &&& r is Ok <==> rej is None
            &&& r is Err ==> final(store)@ == m
            &&& (r matches Ok(t) ==> final(store)@ == compensated(m) && t@ == refund(m))
            &&& rej == Some(Rejection::NotFound) ==> (r matches Err(ContractError::Std(_)))
            &&& rej == Some(Rejection::Unauthorized) ==> r == Err::<Transfer, ContractError>(ContractError::Unauthorized)
        }),
{
    let pointer = match store.load_pointer() {
        Some(p) => p,
        None => {
            return Err(ContractError::Std(not_found("cw_atomic_swap::state::OrderPointer")));
        },
    };
    let order = match store.load_order(&pointer.maker, pointer.order_id) {
        Some(o) => o,
        None => {
            return Err(ContractError::Unauthorized);
        },
    };
    let coin_out = order.coin_out.clone();
    let failed_order = SwapOrder {
        coin_in: order.coin_in,
        coin_out: order.coin_out,
        taker: order.taker,
        timeout: order.timeout,
        status: OrderStatus::Failed,
    };
    store.save_order(pointer.maker, pointer.order_id, failed_order);
    store.remove_pointer();
    Ok(Transfer { to_address: pointer.taker, amount: coin_out })
}

/// Routes a report of the host to its handler by id.
pub fn reply(store: &mut Market, id: u64) -> (r: Result<Transfer, ContractError>)
    requires
        old(store).wf(),
    ensures
        final(store).wf(),
        id != CONFIRM_ORDER_REPLY_ID ==> final(store)@ == old(store)@ && (r matches Err(ContractError::Std(_))),
        id == CONFIRM_ORDER_REPLY_ID ==> {
            let m = old(store)@;
            &&& r is Ok <==> compensation_rejection(m) is None
            &&& r is Err ==> final(store)@ == m
            &&& (r matches Ok(t) ==> final(store)@ == compensated(m) && t@ == refund(m))
        },
{
    if id == CONFIRM_ORDER_REPLY_ID {
        reply_confirm_order(store)
    } else {
        let msg = String::from_str("received unkown reply id: ").concat(u64_to_string(id).as_str());
        Err(ContractError::Std(generic_err(msg)))
    }
}

// ----------------------------------------------------- owner and queries

/// The owner hands the configuration over. `new_owner` is the new owner as
/// the host's address check returned it.
pub fn update_config(
    store: &mut Market,
    sender: &String,
    new_owner: Result<String, cosmwasm_std::StdError>,
) -> (r: Result<(), ContractError>)
    requires
        old(store).wf(),
    ensures
        final(store).wf(),
        sender@ != old(store)@.owner ==> r == Err::<(), ContractError>(ContractError::Unauthorized),
        r is Err ==> final(store)@ == old(store)@,
        sender@ == old(store)@.owner ==> match new_owner {
            Ok(o) => r is Ok && final(store)@ == (MarketView { owner: o@, ..old(store)@ }),
            Err(e) => r == Err::<(), ContractError>(ContractError::Std(e)),
        },
{
    let config = store.config();
    if config.owner != *sender {
        return Err(ContractError::Unauthorized);
    }
    match new_owner {
        Ok(owner) => {
            store.save_config(Config { owner });
            Ok(())
        },
        Err(e) => Err(ContractError::Std(e)),
    }
}

/// The owner the market is started with: the one the message names, else
/// the sender.
pub fn requested_owner(info: &MessageInfo, msg: &InstantiateMsg) -> (r: String)
    ensures
        r@ == match msg.owner {
            Some(o) => o@,
            None => info.sender@,
        },
{
    match &msg.owner {
        Some(o) => o.clone(),
        None => info.sender.clone(),
    }
}

/// Starts the market with `owner`, as the host's address check returned it.
pub fn instantiate(owner: Result<String, cosmwasm_std::StdError>) -> (r: Result<Market, ContractError>)
    ensures
        r is Ok <==> owner is Ok,
        r matches Ok(m) ==> m.wf() && m@ == (MarketView {
            owner: owner->Ok_0@,
            counter: 0,
            orders: Map::empty(),
            pointer: None,
        }),
        owner matches Err(e) ==> r matches Err(ContractError::Std(x)) && x == e,
{
    match owner {
        Ok(owner) => Ok(Market::new(Config { owner }, 0)),
        Err(e) => Err(ContractError::Std(e)),
    }
}

pub fn get_config(store: &Market) -> (r: Config)
    ensures
        r.owner@ == store@.owner,
{
    store.config()
}

/// Every order that can still be matched, as the store lists them.
pub fn get_all_swap_orders(store: &Market, env: &Env) -> (r: AllSwapOrdersResponse)
    ensures
        r.orders@.map_values(|p: ((String, u64), SwapOrder)| keyed_view(p)) == store.listing().filter(
            active_at(env.block_time),
        ),
{
    AllSwapOrdersResponse { orders: store.active_orders(env.block_time) }
}

/// The orders of `maker` that can still be matched, as the store lists them.
pub fn get_orders_by_maker(store: &Market, env: &Env, maker: String) -> (r: SwapOrdersByMakerResponse)
    ensures
        r.orders@.map_values(maker_keyed_view(maker@)) == store.listing().filter(
            active_of_at(maker@, env.block_time),
        ),
{
    SwapOrdersByMakerResponse { orders: store.active_orders_of(&maker, env.block_time) }
}

/// Answers a read of the market.
pub fn query(store: &Market, env: &Env, msg: QueryMsg) -> (r: QueryResponse)
    ensures
        match msg {
            QueryMsg::Config {} => r matches QueryResponse::Config(c) && c.owner@ == store@.owner,
            QueryMsg::AllSwapOrders {} => r matches QueryResponse::AllSwapOrders(a)
                && a.orders@.map_values(|p: ((String, u64), SwapOrder)| keyed_view(p)) == store.listing().filter(
                active_at(env.block_time),
            ),
            QueryMsg::SwapOrdersByMaker { maker } => r matches QueryResponse::SwapOrdersByMaker(b)
                && b.orders@.map_values(maker_keyed_view(maker@)) == store.listing().filter(
                active_of_at(maker@, env.block_time),
            ),
        },
{
    match msg {
        QueryMsg::Config {} => QueryResponse::Config(get_config(store)),
        QueryMsg::AllSwapOrders {} => QueryResponse::AllSwapOrders(get_all_swap_orders(store, env)),
        QueryMsg::SwapOrdersByMaker { maker } => QueryResponse::SwapOrdersByMaker(
            get_orders_by_maker(store, env, maker),
        ),
    }
}

} // verus!
