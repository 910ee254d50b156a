use vstd::prelude::*;

use crate::state::{
    Config, OrderPointer, OrderPointerView, OrderStatus, SwapOrder, SwapOrderView,
};

verus! {

/// An order as the store keeps it: under its maker and its id.
#[derive(Debug)]
pub struct OrderEntry {
    pub maker: String,
    pub order_id: u64,
    pub order: SwapOrder,
}

pub struct OrderEntryView {
    pub maker: Seq<char>,
    pub order_id: u64,
    pub order: SwapOrderView,
}

impl View for OrderEntry {
    type V = OrderEntryView;

    open spec fn view(&self) -> OrderEntryView {
        OrderEntryView { maker: self.maker@, order_id: self.order_id, order: self.order@ }
    }
}

/// The key of a stored order: its maker and its id.
pub type OrderKey = (Seq<char>, u64);

/// The stored state of the market.
pub struct MarketView {
    pub owner: Seq<char>,
    /// The id that the next order will get.
    pub counter: u64,
    pub orders: Map<OrderKey, SwapOrderView>,
    /// The settlement in flight, if any.
    pub pointer: Option<OrderPointerView>,
}

/// What the lifecycle keeps true of every stored order: an accepted order
/// knows its taker.
pub open spec fn well_formed_order(o: SwapOrderView) -> bool {
    o.status == OrderStatus::Accepted ==> o.taker is Some
}

pub open spec fn orders_well_formed(m: MarketView) -> bool {
    forall|k: OrderKey| #[trigger] m.orders.contains_key(k) ==> well_formed_order(m.orders[k])
}

/// The store of the market: its configuration, the order-id counter, the
/// orders keyed by maker and id, and the pointer to the settlement in flight.
#[derive(Debug)]
pub struct Market {
    config: Config,
    counter: u64,
    orders: Vec<OrderEntry>,
    pointer: Option<OrderPointer>,
}

spec fn key_of(e: OrderEntry) -> OrderKey {
    (e.maker@, e.order_id)
}

spec fn keys_unique(s: Seq<OrderEntry>) -> bool {
    forall|i: int, j: int| 0 <= i < s.len() && 0 <= j < s.len() && i != j ==> key_of(s[i]) != key_of(s[j])
}

spec fn has_key(s: Seq<OrderEntry>, k: OrderKey) -> bool {
    exists|i: int| 0 <= i < s.len() && key_of(#[trigger] s[i]) == k
}

spec fn orders_map(s: Seq<OrderEntry>) -> Map<OrderKey, SwapOrderView> {
    Map::new(
        |k: OrderKey| has_key(s, k),
        |k: OrderKey| s[choose|i: int| 0 <= i < s.len() && key_of(#[trigger] s[i]) == k].order@,
    )
}

proof fn lemma_orders_map_at(s: Seq<OrderEntry>, i: int)
    requires
        keys_unique(s),
        0 <= i < s.len(),
    ensures
        orders_map(s).contains_key(key_of(s[i])),
        orders_map(s)[key_of(s[i])] == s[i].order@,
{
    let k = key_of(s[i]);
    assert(has_key(s, k));
    let j = choose|j: int| 0 <= j < s.len() && key_of(#[trigger] s[j]) == k;
    assert(j == i);
}

proof fn lemma_orders_map_update(s: Seq<OrderEntry>, i: int, e: OrderEntry)
    requires
        keys_unique(s),
        0 <= i < s.len(),
        key_of(e) == key_of(s[i]),
    ensures
        keys_unique(s.update(i, e)),
        orders_map(s.update(i, e)) == orders_map(s).insert(key_of(e), e.order@),
{
    let t = s.update(i, e);
    assert(keys_unique(t)) by {
        assert forall|a: int, b: int| 0 <= a < t.len() && 0 <= b < t.len() && a != b implies key_of(t[a]) != key_of(t[b]) by {
            assert(key_of(t[a]) == key_of(s[a]));
            assert(key_of(t[b]) == key_of(s[b]));
        }
    }
    let m = orders_map(s).insert(key_of(e), e.order@);
    assert forall|k: OrderKey| #[trigger] orders_map(t).contains_key(k) <==> m.contains_key(k) by {
        if has_key(t, k) {
            let a = choose|a: int| 0 <= a < t.len() && key_of(#[trigger] t[a]) == k;
            if a != i {
                assert(key_of(s[a]) == k);
            }
        }
        if has_key(s, k) {
            let a = choose|a: int| 0 <= a < s.len() && key_of(#[trigger] s[a]) == k;
            assert(key_of(t[a]) == k);
        }
        if k == key_of(e) {
            assert(key_of(t[i]) == k);
        }
    }
    assert forall|k: OrderKey| #[trigger] orders_map(t).contains_key(k) implies orders_map(t)[k] == m[k] by {
        let a = choose|a: int| 0 <= a < t.len() && key_of(#[trigger] t[a]) == k;
        lemma_orders_map_at(t, a);
        if a != i {
            lemma_orders_map_at(s, a);
        }
    }
    assert(orders_map(t) =~= m);
}

proof fn lemma_orders_map_push(s: Seq<OrderEntry>, e: OrderEntry)
    requires
        keys_unique(s),
        !orders_map(s).contains_key(key_of(e)),
    ensures
        keys_unique(s.push(e)),
        orders_map(s.push(e)) == orders_map(s).insert(key_of(e), e.order@),
{
    let t = s.push(e);
    assert(keys_unique(t)) by {
        assert forall|a: int, b: int| 0 <= a < t.len() && 0 <= b < t.len() && a != b implies key_of(t[a]) != key_of(t[b]) by {
            if a == s.len() as int {
                assert(key_of(t[b]) == key_of(s[b]));
                assert(has_key(s, key_of(s[b])));
            } else if b == s.len() as int {
                assert(key_of(t[a]) == key_of(s[a]));
                assert(has_key(s, key_of(s[a])));
            } else {
                assert(t[a] == s[a] && t[b] == s[b]);
            }
        }
    }
    let m = orders_map(s).insert(key_of(e), e.order@);
    assert forall|k: OrderKey| #[trigger] orders_map(t).contains_key(k) <==> m.contains_key(k) by {
        if has_key(t, k) {
            let a = choose|a: int| 0 <= a < t.len() && key_of(#[trigger] t[a]) == k;
            if a < s.len() {
                assert(t[a] == s[a]);
                assert(has_key(s, k));
            }
        }
        if has_key(s, k) {
            let a = choose|a: int| 0 <= a < s.len() && key_of(#[trigger] s[a]) == k;
            assert(t[a] == s[a]);
            assert(has_key(t, k));
        }
        if k == key_of(e) {
            assert(key_of(t[s.len() as int]) == k);
        }
    }
    assert forall|k: OrderKey| #[trigger] orders_map(t).contains_key(k) implies orders_map(t)[k] == m[k] by {
        let a = choose|a: int| 0 <= a < t.len() && key_of(#[trigger] t[a]) == k;
        lemma_orders_map_at(t, a);
        if a < s.len() {
            assert(t[a] == s[a]);
            lemma_orders_map_at(s, a);
        }
    }
    assert(orders_map(t) =~= m);
}

impl View for Market {
    type V = MarketView;

    closed spec fn view(&self) -> MarketView {
        MarketView {
            owner: self.config.owner@,
            counter: self.counter,
            orders: orders_map(self.orders@),
            pointer: match self.pointer {
                Some(p) => Some(p@),
                None => None,
            },
        }
    }
}

impl Market {
    /// The store is consistent: one order per key, and every order well formed.
    pub closed spec fn wf(&self) -> bool {
        &&& keys_unique(self.orders@)
        &&& forall|i: int| 0 <= i < self.orders@.len() ==> well_formed_order(#[trigger] self.orders@[i].order@)
    }

    /// The stored orders, in the order in which the store lists them.
    pub closed spec fn listing(&self) -> Seq<OrderEntryView> {
        self.orders@.map_values(|e: OrderEntry| e@)
    }

    pub proof fn lemma_wf(&self)
        requires
            self.wf(),
        ensures
            orders_well_formed(self@),
    {
        assert forall|k: OrderKey| #[trigger] self@.orders.contains_key(k) implies well_formed_order(self@.orders[k]) by {
            let s = self.orders@;
            let a = choose|a: int| 0 <= a < s.len() && key_of(#[trigger] s[a]) == k;
            lemma_orders_map_at(s, a);
        }
    }

    /// The listing holds exactly the stored orders, each under its key.
    pub proof fn lemma_listing(&self)
        requires
            self.wf(),
        ensures
            forall|i: int| 0 <= i < self.listing().len() ==> {
                let e = #[trigger] self.listing()[i];
                &&& self@.orders.contains_key((e.maker, e.order_id))
                &&& self@.orders[(e.maker, e.order_id)] == e.order
            },
            forall|k: OrderKey| #[trigger] self@.orders.contains_key(k) ==> exists|i: int|
                0 <= i < self.listing().len() && (self.listing()[i].maker, self.listing()[i].order_id) == k,
            forall|i: int, j: int|
                0 <= i < self.listing().len() && 0 <= j < self.listing().len() && i != j ==> (
                #[trigger] self.listing()[i].maker,
                self.listing()[i].order_id,
            ) != (#[trigger] self.listing()[j].maker, self.listing()[j].order_id),
            self.listing().len() == self@.orders.dom().len(),
    {
        let s = self.orders@;
        assert forall|i: int| 0 <= i < self.listing().len() implies {
            let e = #[trigger] self.listing()[i];
            &&& self@.orders.contains_key((e.maker, e.order_id))
            &&& self@.orders[(e.maker, e.order_id)] == e.order
        } by {
            lemma_orders_map_at(s, i);
        }
        assert forall|k: OrderKey| #[trigger] self@.orders.contains_key(k) implies exists|i: int|
            0 <= i < self.listing().len() && (self.listing()[i].maker, self.listing()[i].order_id) == k by {
            let a = choose|a: int| 0 <= a < s.len() && key_of(#[trigger] s[a]) == k;
            assert(self.listing()[a] == s[a]@);
        }
        let keys = s.map_values(|e: OrderEntry| key_of(e));
        assert forall|i: int, j: int|
            0 <= i < self.listing().len() && 0 <= j < self.listing().len() && i != j implies (
            #[trigger] self.listing()[i].maker,
            self.listing()[i].order_id,
        ) != (#[trigger] self.listing()[j].maker, self.listing()[j].order_id) by {
            assert(self.listing()[i] == s[i]@ && self.listing()[j] == s[j]@);
        }
        assert(keys.no_duplicates()) by {
            assert forall|i: int, j: int| 0 <= i < keys.len() && 0 <= j < keys.len() && i != j implies keys[i] != keys[j] by {
                assert(keys[i] == key_of(s[i]) && keys[j] == key_of(s[j]));
            }
        }
        keys.unique_seq_to_set();
        assert(self@.orders.dom() =~= keys.to_set()) by {
            assert forall|k: OrderKey| #[trigger] self@.orders.dom().contains(k) implies keys.to_set().contains(k) by {
                let a = choose|a: int| 0 <= a < s.len() && key_of(#[trigger] s[a]) == k;
                assert(keys[a] == k);
            }
            assert forall|k: OrderKey| #[trigger] keys.to_set().contains(k) implies self@.orders.dom().contains(k) by {
                let a = choose|a: int| 0 <= a < keys.len() && keys[a] == k;
                assert(key_of(s[a]) == k);
                assert(has_key(s, k));
            }
        }
    }

    /// A store with the given configuration and counter, and nothing else.
    pub fn new(config: Config, counter: u64) -> (r: Market)
        ensures
            r.wf(),
            r@ == (MarketView {
                owner: config.owner@,
                counter,
                orders: Map::empty(),
                pointer: None,
            }),
    {
        let r = Market { config, counter, orders: Vec::new(), pointer: None };
        assert(r@.orders =~= Map::<OrderKey, SwapOrderView>::empty());
        r
    }

    pub fn config(&self) -> (r: Config)
        ensures
            r.owner@ == self@.owner,
    {
        self.config.clone()
    }

    pub fn save_config(&mut self, config: Config)
        requires
            old(self).wf(),
        ensures
            final(self).wf(),
            final(self)@ == (MarketView { owner: config.owner@, ..old(self)@ }),
    {
        self.config = config;
    }

    pub fn counter(&self) -> (r: u64)
        ensures
            r == self@.counter,
    {
        self.counter
    }

    fn find(&self, maker: &String, order_id: u64) -> (r: Option<usize>)
        requires
            self.wf(),
        ensures
            match r {
                Some(i) => i < self.orders@.len() && key_of(self.orders@[i as int]) == (maker@, order_id),
                None => !self@.orders.contains_key((maker@, order_id)),
            },
    {
        let n = self.orders.len();
        let mut i: usize = 0;
        while i < n
            invariant
                n == self.orders@.len(),
                i <= n,
                forall|j: int| 0 <= j < i ==> key_of(#[trigger] self.orders@[j]) != (maker@, order_id),
            decreases n - i,
        {
            let e = &self.orders[i];
            if e.order_id == order_id && e.maker == *maker {
                return Some(i);
            }
            i = i + 1;
        }
        None
    }

    /// The order stored under `(maker, order_id)`, if any.
    pub fn load_order(&self, maker: &String, order_id: u64) -> (r: Option<SwapOrder>)
        requires
            self.wf(),
        ensures
            r is Some <==> self@.orders.contains_key((maker@, order_id)),
            r matches Some(o) ==> o@ == self@.orders[(maker@, order_id)] && well_formed_order(o@),
    {
        match self.find(maker, order_id) {
            Some(i) => {
                proof {
                    lemma_orders_map_at(self.orders@, i as int);
                }
                Some(self.orders[i].order.clone())
            },
            None => None,
        }
    }

    /// Stores `order` under `(maker, order_id)`, in place of any order there.
    pub fn save_order(&mut self, maker: String, order_id: u64, order: SwapOrder)
        requires
            old(self).wf(),
            well_formed_order(order@),
        ensures
            final(self).wf(),
            final(self)@ == (MarketView {
                orders: old(self)@.orders.insert((maker@, order_id), order@),
                ..old(self)@
            }),
    {
        let entry = OrderEntry { maker, order_id, order };
        match self.find(&entry.maker, order_id) {
            Some(i) => {
                proof {
                    lemma_orders_map_update(self.orders@, i as int, entry);
                }
                self.orders.set(i, entry);
            },
            None => {
                proof {
                    lemma_orders_map_push(self.orders@, entry);
                }
                self.orders.push(entry);
            },
        }
    }

    pub fn load_pointer(&self) -> (r: Option<OrderPointer>)
        ensures
            match r {
                Some(p) => self@.pointer == Some(p@),
                None => self@.pointer is None,
            },
    {
        match &self.pointer {
            Some(p) => Some(p.clone()),
            None => None,
        }
    }

    pub fn save_pointer(&mut self, pointer: OrderPointer)
        requires
            old(self).wf(),
        ensures
            final(self).wf(),
            final(self)@ == (MarketView { pointer: Some(pointer@), ..old(self)@ }),
    {
        self.pointer = Some(pointer);
    }

    /// The orders that can still be matched at `now`, as the store lists them.
    pub fn active_orders(&self, now: u64) -> (r: Vec<((String, u64), SwapOrder)>)
        ensures
            r@.map_values(|p: ((String, u64), SwapOrder)| keyed_view(p)) == self.listing().filter(active_at(now)),
    {
        let n = self.orders.len();
        let mut r: Vec<((String, u64), SwapOrder)> = Vec::new();
        let mut i: usize = 0;
        while i < n
            invariant
                n == self.orders@.len(),
                i <= n,
                r@.map_values(|p: ((String, u64), SwapOrder)| keyed_view(p)) == self.listing().subrange(0, i as int).filter(active_at(now)),
            decreases n - i,
        {
            let e = &self.orders[i];
            proof {
                reveal(Seq::filter);
                assert(self.listing().subrange(0, i + 1).drop_last() =~= self.listing().subrange(0, i as int));
                assert(self.listing().subrange(0, i + 1).last() == e@);
            }
            if e.order.timeout > now {
                r.push(((e.maker.clone(), e.order_id), e.order.clone()));
                assert(r@.map_values(|p: ((String, u64), SwapOrder)| keyed_view(p)) =~= self.listing().subrange(0, i + 1).filter(active_at(now)));
            }
            i = i + 1;
        }
        assert(self.listing().subrange(0, n as int) =~= self.listing());
        r
    }

    /// The orders of `maker` that can still be matched at `now`, as the store
    /// lists them.
    pub fn active_orders_of(&self, maker: &String, now: u64) -> (r: Vec<(u64, SwapOrder)>)
        ensures
            r@.map_values(maker_keyed_view(maker@)) == self.listing().filter(active_of_at(maker@, now)),
    {
        let n = self.orders.len();
        let mut r: Vec<(u64, SwapOrder)> = Vec::new();
        let mut i: usize = 0;
        while i < n
            invariant
                n == self.orders@.len(),
                i <= n,
                r@.map_values(maker_keyed_view(maker@)) == self.listing().subrange(0, i as int).filter(active_of_at(maker@, now)),
            decreases n - i,
        {
            let e = &self.orders[i];
            proof {
                reveal(Seq::filter);
                assert(self.listing().subrange(0, i + 1).drop_last() =~= self.listing().subrange(0, i as int));
                assert(self.listing().subrange(0, i + 1).last() == e@);
            }
            if e.maker == *maker && e.order.timeout > now {
                r.push((e.order_id, e.order.clone()));
                assert(r@.map_values(maker_keyed_view(maker@)) =~= self.listing().subrange(0, i + 1).filter(active_of_at(maker@, now)));
            }
            i = i + 1;
        }
        assert(self.listing().subrange(0, n as int) =~= self.listing());
        r
    }

    pub fn remove_pointer(&mut self)
        requires
            old(self).wf(),
        ensures
            final(self).wf(),
            final(self)@ == (MarketView { pointer: None, ..old(self)@ }),
    {
        self.pointer = None;
    }
}

/// An order that can still be matched at block time `now`.
pub open spec fn active_at(now: u64) -> spec_fn(OrderEntryView) -> bool {
    |e: OrderEntryView| e.order.timeout > now
}

/// An order of `maker` that can still be matched at block time `now`.
pub open spec fn active_of_at(maker: Seq<char>, now: u64) -> spec_fn(OrderEntryView) -> bool {
    |e: OrderEntryView| e.maker == maker && e.order.timeout > now
}

pub open spec fn keyed_view(p: ((String, u64), SwapOrder)) -> OrderEntryView {
    OrderEntryView { maker: p.0.0@, order_id: p.0.1, order: p.1@ }
}

pub open spec fn maker_keyed_view(maker: Seq<char>) -> spec_fn((u64, SwapOrder)) -> OrderEntryView {
    |p: (u64, SwapOrder)| OrderEntryView { maker, order_id: p.0, order: p.1@ }
}

/// Hands out the id of the next order and advances the counter.
pub fn next_id(store: &mut Market) -> (r: u64)
    requires
        old(store).wf(),
        old(store)@.counter < u64::MAX,
    ensures
        final(store).wf(),
        r == old(store)@.counter,
        final(store)@ == (MarketView { counter: (old(store)@.counter + 1) as u64, ..old(store)@ }),
{
    let id = store.counter;
    store.counter = id + 1;
    id
}

} // verus!
