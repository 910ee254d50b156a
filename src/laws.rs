//! Properties of the order lifecycle, stated over the model that the
//! handlers in `contract` are proved to follow.
use vstd::prelude::*;

use crate::contract::{
    accept_rejection, accepted, compensated, compensation_rejection, confirm_rejection, confirmed,
    create_rejection, created, refund, settlement, Rejection,
};
use crate::msg::TransferView;
use crate::state::{CoinView, OrderPointerView, OrderStatus};
use crate::store::MarketView;
use crate::utils::valid_denom;

verus! {

/// A created order is stored under the maker and the id it was given; it
/// expires exactly `timeout` seconds after its creation and starts open.
pub proof fn lemma_created_order(
    m: MarketView,
    maker: Seq<char>,
    coin_in: CoinView,
    coin_out: CoinView,
    taker: Option<Seq<char>>,
    now: u64,
    timeout: u64,
)
    requires
        now + timeout <= u64::MAX,
    ensures
        ({
            let after = created(m, maker, coin_in, coin_out, taker, now, timeout);
            &&& after.orders.contains_key((maker, m.counter))
            &&& after.orders[(maker, m.counter)].timeout == now + timeout
            &&& after.orders[(maker, m.counter)].status == OrderStatus::Open
        }),
{
}

/// Creation is refused whenever both sides have the same denomination, and,
/// for well-formed denominations, no attached funds and an accepted taker,
/// only then; the amounts never matter.
pub proof fn lemma_create_refused_iff_same_denom(
    coin_in: CoinView,
    coin_out: CoinView,
    n_funds: nat,
    taker_accepted: bool,
    other_amount_in: u128,
    other_amount_out: u128,
)
    ensures
        coin_in.denom == coin_out.denom ==> create_rejection(coin_in, coin_out, n_funds, taker_accepted)
            == Some(Rejection::SameDenom),
        valid_denom(coin_in.denom) && valid_denom(coin_out.denom) && n_funds == 0 && taker_accepted
            ==> (create_rejection(coin_in, coin_out, n_funds, taker_accepted) is Some <==> coin_in.denom
            == coin_out.denom),
        create_rejection(
            (CoinView { amount: other_amount_in, ..coin_in }),
            (CoinView { amount: other_amount_out, ..coin_out }),
            n_funds,
            taker_accepted,
        ) == create_rejection(coin_in, coin_out, n_funds, taker_accepted),
{
}

/// An order that is not open, or whose timeout has passed, cannot be
/// accepted: once the funds count and the parties check out, acceptance is
/// turned down with the state error.
pub proof fn lemma_accept_needs_open_unexpired(
    m: MarketView,
    sender: Seq<char>,
    funds: Seq<CoinView>,
    now: u64,
    maker: Seq<char>,
    order_id: u64,
)
    requires
        m.orders.contains_key((maker, order_id)),
        m.orders[(maker, order_id)].status != OrderStatus::Open || now > m.orders[(
            maker,
            order_id,
        )].timeout,
    ensures
        accept_rejection(m, sender, funds, now, maker, order_id) is Some,
        funds.len() == 1 && sender != maker ==> accept_rejection(m, sender, funds, now, maker, order_id)
            == Some(Rejection::NotAvailable),
{
}

/// On an open, unexpired order that the sender may take, acceptance with one
/// attached coin is turned down exactly when that coin differs from the
/// order's `coin_out`, in denomination or in amount.
pub proof fn lemma_accept_needs_exact_coin(
    m: MarketView,
    sender: Seq<char>,
    funds: Seq<CoinView>,
    now: u64,
    maker: Seq<char>,
    order_id: u64,
)
    requires
        funds.len() == 1,
        sender != maker,
        m.orders.contains_key((maker, order_id)),
        m.orders[(maker, order_id)].status == OrderStatus::Open,
        now <= m.orders[(maker, order_id)].timeout,
        m.orders[(maker, order_id)].taker is None || m.orders[(maker, order_id)].taker == Some(sender),
    ensures
        accept_rejection(m, sender, funds, now, maker, order_id) is Some <==> (funds[0].denom
            != m.orders[(maker, order_id)].coin_out.denom || funds[0].amount != m.orders[(
            maker,
            order_id,
        )].coin_out.amount),
{
}

/// A restricted order turns down every taker but its own; an open order
/// takes anyone but its maker.
pub proof fn lemma_accept_who(
    m: MarketView,
    sender: Seq<char>,
    funds: Seq<CoinView>,
    now: u64,
    maker: Seq<char>,
    order_id: u64,
)
    requires
        funds.len() == 1,
        m.orders.contains_key((maker, order_id)),
        m.orders[(maker, order_id)].status == OrderStatus::Open,
        now <= m.orders[(maker, order_id)].timeout,
        funds[0] == m.orders[(maker, order_id)].coin_out,
    ensures
        sender == maker ==> accept_rejection(m, sender, funds, now, maker, order_id) == Some(
            Rejection::SenderIsMaker,
        ),
        m.orders[(maker, order_id)].taker matches Some(t) && t != sender ==> accept_rejection(
            m,
            sender,
            funds,
            now,
            maker,
            order_id,
        ) is Some,
        m.orders[(maker, order_id)].taker matches Some(t) && t != sender && sender != maker
            ==> accept_rejection(m, sender, funds, now, maker, order_id) == Some(
            Rejection::Unauthorized,
        ),
        m.orders[(maker, order_id)].taker is None ==> (accept_rejection(
            m,
            sender,
            funds,
            now,
            maker,
            order_id,
        ) is None <==> sender != maker),
{
}

/// After an acceptance the order is accepted by the sender, and the one
/// pointer names exactly this order, its maker and its taker.
pub proof fn lemma_accepted_state(m: MarketView, taker: Seq<char>, maker: Seq<char>, order_id: u64)
    requires
        m.orders.contains_key((maker, order_id)),
    ensures
        ({
            let after = accepted(m, taker, maker, order_id);
            &&& after.orders.contains_key((maker, order_id))
            &&& after.orders[(maker, order_id)].status == OrderStatus::Accepted
            &&& after.orders[(maker, order_id)].taker == Some(taker)
            &&& after.pointer == Some(OrderPointerView { order_id, maker, taker })
        }),
{
}

/// Confirmation goes through only for the maker, on an accepted, unexpired
/// order, with exactly its `coin_in` attached; it then settles the order,
/// clears the pointer and pays `coin_out` to the maker and `coin_in` to the
/// taker.
pub proof fn lemma_confirm(
    m: MarketView,
    sender: Seq<char>,
    funds: Seq<CoinView>,
    now: u64,
    maker: Seq<char>,
    order_id: u64,
)
    requires
        confirm_rejection(m, sender, funds, now, maker, order_id) is None,
    ensures
        sender == maker,
        m.orders.contains_key((maker, order_id)),
        m.orders[(maker, order_id)].status == OrderStatus::Accepted,
        now <= m.orders[(maker, order_id)].timeout,
        funds.len() == 1 && funds[0] == m.orders[(maker, order_id)].coin_in,
        confirmed(m, maker, order_id).orders[(maker, order_id)].status == OrderStatus::Confirmed,
        confirmed(m, maker, order_id).pointer is None,
        settlement(m, maker, order_id) == seq![
            TransferView { to_address: maker, amount: m.orders[(maker, order_id)].coin_out },
            TransferView {
                to_address: m.orders[(maker, order_id)].taker->0,
                amount: m.orders[(maker, order_id)].coin_in,
            },
        ],
{
}

/// The failure notification marks the order in flight failed, clears the
/// pointer, and refunds the order's `coin_out` to the pointer's taker.
pub proof fn lemma_compensation(m: MarketView)
    requires
        compensation_rejection(m) is None,
    ensures
        ({
            let p = m.pointer->0;
            let after = compensated(m);
            &&& after.orders.contains_key((p.maker, p.order_id))
            &&& after.orders[(p.maker, p.order_id)].status == OrderStatus::Failed
            &&& after.pointer is None
            &&& refund(m) == (TransferView {
                to_address: p.taker,
                amount: m.orders[(p.maker, p.order_id)].coin_out,
            })
        }),
{
}

/// An order that is already confirmed or failed is never confirmed again:
/// the call is always turned down, with the state error once the funds
/// count and the caller check out.
pub proof fn lemma_no_second_settlement(
    m: MarketView,
    sender: Seq<char>,
    funds: Seq<CoinView>,
    now: u64,
    maker: Seq<char>,
    order_id: u64,
)
    requires
        m.orders.contains_key((maker, order_id)),
        m.orders[(maker, order_id)].status == OrderStatus::Confirmed || m.orders[(
            maker,
            order_id,
        )].status == OrderStatus::Failed,
    ensures
        confirm_rejection(m, sender, funds, now, maker, order_id) is Some,
        funds.len() == 1 && sender == maker ==> confirm_rejection(m, sender, funds, now, maker, order_id)
            == Some(Rejection::NotAvailable),
{
}

} // verus!
