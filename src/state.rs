use vstd::prelude::*;

verus! {

/// An amount of one fungible denomination.
#[derive(Debug, PartialEq, Eq)]
pub struct Coin {
    pub denom: String,
    pub amount: u128,
}

/// The mathematical value of a [`Coin`].
pub struct CoinView {
    pub denom: Seq<char>,
    pub amount: u128,
}

impl View for Coin {
    type V = CoinView;

    open spec fn view(&self) -> CoinView {
        CoinView { denom: self.denom@, amount: self.amount }
    }
}

impl Clone for Coin {
    fn clone(&self) -> (r: Self)
        ensures
            r == *self,
    {
        Coin { denom: self.denom.clone(), amount: self.amount }
    }
}

impl Coin {
    pub fn new(amount: u128, denom: &str) -> (r: Coin)
        ensures
            r@ == (CoinView { denom: denom@, amount }),
    {
        Coin { denom: denom.to_owned(), amount }
    }
}

/// Where an order stands in its lifecycle.
#[derive(Debug, Clone, Copy, PartialEq, Eq, Structural)]
pub enum OrderStatus {
    /// Created and open to be matched.
    Open,
    /// Matched by a taker; settlement is in flight.
    Accepted,
    /// Settled: both legs were transferred.
    Confirmed,
    /// Withdrawn by the maker.
    Deleted,
    /// Settlement failed and the taker was refunded.
    Failed,
}

/// The name under which a status is reported.
pub open spec fn status_name(s: OrderStatus) -> Seq<char> {
    match s {
        OrderStatus::Open => "Open"@,
        OrderStatus::Accepted => "Accepted"@,
        OrderStatus::Confirmed => "Confirmed"@,
        OrderStatus::Deleted => "Deleted"@,
        OrderStatus::Failed => "Failed"@,
    }
}

impl OrderStatus {
    /// The name of the status, as error reports carry it.
    pub fn to_string(&self) -> (r: String)
        ensures
            r@ == status_name(*self),
    {
        match self {
            OrderStatus::Open => String::from_str("Open"),
            OrderStatus::Accepted => String::from_str("Accepted"),
            OrderStatus::Confirmed => String::from_str("Confirmed"),
            OrderStatus::Deleted => String::from_str("Deleted"),
            OrderStatus::Failed => String::from_str("Failed"),
        }
    }
}

/// A maker's offer of `coin_in` against `coin_out`.
#[derive(Debug, PartialEq, Eq)]
pub struct SwapOrder {
    /// What the maker gives.
    pub coin_in: Coin,
    /// What the maker wants in return.
    pub coin_out: Coin,
    /// The only identity that may accept the order, if any; once the order
    /// is accepted, the identity that did.
    pub taker: Option<String>,
    /// Block time, in seconds, after which the order can no longer be matched.
    pub timeout: u64,
    pub status: OrderStatus,
}

pub struct SwapOrderView {
    pub coin_in: CoinView,
    pub coin_out: CoinView,
    pub taker: Option<Seq<char>>,
    pub timeout: u64,
    pub status: OrderStatus,
}

pub open spec fn opt_string_view(o: Option<String>) -> Option<Seq<char>> {
    match o {
        Some(s) => Some(s@),
        None => None,
    }
}

impl View for SwapOrder {
    type V = SwapOrderView;

    open spec fn view(&self) -> SwapOrderView {
        SwapOrderView {
            coin_in: self.coin_in@,
            coin_out: self.coin_out@,
            taker: opt_string_view(self.taker),
            timeout: self.timeout,
            status: self.status,
        }
    }
}

impl Clone for SwapOrder {
    fn clone(&self) -> (r: Self)
        ensures
            r == *self,
    {
        let taker = match &self.taker {
            Some(t) => Some(t.clone()),
            None => None,
        };
        SwapOrder {
            coin_in: self.coin_in.clone(),
            coin_out: self.coin_out.clone(),
            taker,
            timeout: self.timeout,
            status: self.status,
        }
    }
}

/// The settlement in flight: which order, and between whom.
#[derive(Debug, PartialEq, Eq)]
pub struct OrderPointer {
    pub order_id: u64,
    pub maker: String,
    pub taker: String,
}

pub struct OrderPointerView {
    pub order_id: u64,
    pub maker: Seq<char>,
    pub taker: Seq<char>,
}

impl View for OrderPointer {
    type V = OrderPointerView;

    open spec fn view(&self) -> OrderPointerView {
        OrderPointerView { order_id: self.order_id, maker: self.maker@, taker: self.taker@ }
    }
}

impl Clone for OrderPointer {
    fn clone(&self) -> (r: Self)
        ensures
            r == *self,
    {
        OrderPointer {
            order_id: self.order_id,
            maker: self.maker.clone(),
            taker: self.taker.clone(),
        }
    }
}

/// Configuration of the market.
#[derive(Debug, PartialEq, Eq)]
pub struct Config {
    /// The only identity that may change the configuration.
    pub owner: String,
}

impl Clone for Config {
    fn clone(&self) -> (r: Self)
        ensures
            r == *self,
    {
        Config { owner: self.owner.clone() }
    }
}

} // verus!
