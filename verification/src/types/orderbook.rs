//! An order book built from a book update: each side holds its price levels
//! in increasing order of price, one level per price value.
use vstd::prelude::*;
use crate::types::decimal::{Decimal, value_eq, value_lt, lemma_value_order};
use crate::protocol::marketdata_publisher::{BookUpdateData, L2BookLevel, L3BookLevel};

verus! {

/// A level of the book: its total quantity and, for an order-level book,
/// the quantities of its orders.
#[derive(Debug, Clone)]
pub struct OrderbookLevel {
    pub quantity: u64,
    pub order_quantities: Option<Vec<u64>>,
}

/// The abstract value of a level.
pub struct LevelView {
    pub quantity: u64,
    pub order_quantities: Option<Seq<u64>>,
}

impl View for OrderbookLevel {
    type V = LevelView;

    open spec fn view(&self) -> LevelView {
        LevelView {
            quantity: self.quantity,
            order_quantities: match self.order_quantities {
                Some(v) => Some(v@),
                None => None,
            },
        }
    }
}

/// One side of a book as price/level pairs.
pub type SideView = Seq<(Decimal, LevelView)>;

/// Whether the prices of a side strictly increase in value.
pub open spec fn strictly_increasing(s: SideView) -> bool {
    forall|i: int, j: int| 0 <= i < j < s.len() ==> value_lt(#[trigger] s[i].0, #[trigger] s[j].0)
}

/// The number of levels of `s` priced below `k`.
pub open spec fn count_below(s: SideView, k: Decimal) -> nat
    decreases s.len(),
{
    if s.len() == 0 {
        0
    } else {
        count_below(s.drop_last(), k) + if value_lt(s.last().0, k) { 1nat } else { 0nat }
    }
}

/// Setting level `v` at price `k` (`BTreeMap::insert` by value): the level
/// at the place of `k` in price order takes `v` when its price has `k`'s
/// value (keeping its own price); otherwise `k` is added there with `v`.
pub open spec fn side_insert(s: SideView, k: Decimal, v: LevelView) -> SideView {
    let i = count_below(s, k) as int;
    if i < s.len() && value_eq(s[i].0, k) {
        s.update(i, (s[i].0, v))
    } else {
        s.insert(i, (k, v))
    }
}

/// The side made of the levels `levels`, set in order.
pub open spec fn side_of(levels: SideView) -> SideView
    decreases levels.len(),
{
    if levels.len() == 0 {
        Seq::empty()
    } else {
        side_insert(side_of(levels.drop_last()), levels.last().0, levels.last().1)
    }
}

/// In an increasing side, the levels below `k` are exactly the first `i`,
/// when the first `i` are below `k` and the next is not.
proof fn lemma_count_below_prefix(s: SideView, k: Decimal, i: int)
    requires
        strictly_increasing(s),
        0 <= i <= s.len(),
        forall|j: int| 0 <= j < i ==> value_lt(#[trigger] s[j].0, k),
        i < s.len() ==> !value_lt(s[i].0, k),
    ensures
        count_below(s, k) == i,
    decreases s.len(),
{
    if s.len() > 0 {
        let t = s.drop_last();
        assert(strictly_increasing(t)) by {
            assert forall|p: int, q: int| 0 <= p < q < t.len() implies value_lt(#[trigger] t[p].0, #[trigger] t[q].0) by {
                assert(s[p] == t[p] && s[q] == t[q]);
            }
        }
        if i == s.len() {
            assert forall|j: int| 0 <= j < i - 1 implies value_lt(#[trigger] t[j].0, k) by {
                assert(t[j] == s[j]);
            }
            assert(value_lt(s[s.len() - 1].0, k));
            lemma_count_below_prefix(t, k, i - 1);
        } else {
            let last = s.len() - 1;
            assert(!value_lt(s[last].0, k)) by {
                if last > i {
                    assert(value_lt(s[i].0, s[last].0));
                    lemma_value_order(s[last].0, k, s[i].0);
                    lemma_value_order(s[i].0, s[last].0, k);
                }
            }
            assert forall|j: int| 0 <= j < i implies value_lt(#[trigger] t[j].0, k) by {
                assert(t[j] == s[j]);
            }
            if i < t.len() {
                assert(t[i] == s[i]);
            }
            lemma_count_below_prefix(t, k, i);
        }
    }
}

/// Setting a level keeps a side increasing.
proof fn lemma_side_insert_increasing(s: SideView, k: Decimal, v: LevelView)
    requires
        strictly_increasing(s),
        count_below(s, k) <= s.len(),
        forall|j: int| 0 <= j < count_below(s, k) ==> value_lt(#[trigger] s[j].0, k),
        count_below(s, k) < s.len() ==> !value_lt(s[count_below(s, k) as int].0, k),
    ensures
        strictly_increasing(side_insert(s, k, v)),
        side_insert(s, k, v).len() <= s.len() + 1,
{
    let i = count_below(s, k) as int;
    let r = side_insert(s, k, v);
    if i < s.len() && value_eq(s[i].0, k) {
        assert forall|p: int, q: int| 0 <= p < q < r.len() implies value_lt(#[trigger] r[p].0, #[trigger] r[q].0) by {
            assert(r[p].0 == s[p].0 && r[q].0 == s[q].0);
        }
    } else {
        if i < s.len() {
            lemma_value_order(k, s[i].0, k);
            lemma_value_order(s[i].0, k, s[i].0);
        }
        assert forall|p: int, q: int| 0 <= p < q < r.len() implies value_lt(#[trigger] r[p].0, #[trigger] r[q].0) by {
            if q < i {
                assert(r[p] == s[p] && r[q] == s[q]);
            } else if q == i {
                assert(r[p] == s[p]);
                assert(r[q].0 == k);
            } else if p == i {
                assert(r[p].0 == k);
                assert(r[q] == s[q - 1]);
                if q - 1 > i {
                    assert(value_lt(s[i].0, s[q - 1].0));
                    lemma_value_order(k, s[i].0, s[q - 1].0);
                }
            } else if p < i {
                assert(r[p] == s[p] && r[q] == s[q - 1]);
            } else {
                assert(r[p] == s[p - 1] && r[q] == s[q - 1]);
            }
        }
    }
}

/// A side has at most as many levels below a price as levels.
proof fn lemma_count_below_le(s: SideView, k: Decimal)
    ensures
        count_below(s, k) <= s.len(),
    decreases s.len(),
{
    if s.len() > 0 {
        lemma_count_below_le(s.drop_last(), k);
    }
}

/// A level that no later level of the same price value replaces is found
/// in the side made of the levels: some entry of the side has its price
/// value and exactly its level.
pub proof fn lemma_side_of_keeps_level(levels: SideView, i: int)
    requires
        0 <= i < levels.len(),
        forall|j: int| i < j < levels.len() ==> !value_eq(#[trigger] levels[j].0, levels[i].0),
    ensures
        exists|p: int|
            0 <= p < side_of(levels).len() && value_eq(#[trigger] side_of(levels)[p].0, levels[i].0)
                && side_of(levels)[p].1 == levels[i].1,
    decreases levels.len(),
{
    let pre = levels.drop_last();
    let s = side_of(pre);
    let k = levels.last().0;
    let v = levels.last().1;
    let r = side_of(levels);
    let c = count_below(s, k) as int;
    lemma_count_below_le(s, k);
    assert(r == side_insert(s, k, v));
    if i == levels.len() - 1 {
        assert(levels[i] == (k, v));
        if c < s.len() && value_eq(s[c].0, k) {
            assert(r[c] == (s[c].0, v));
            assert(0 <= c < r.len() && value_eq(r[c].0, levels[i].0) && r[c].1 == levels[i].1);
        } else {
            lemma_value_order(k, k, k);
            assert(r[c] == (k, v));
            assert(0 <= c < r.len() && value_eq(r[c].0, levels[i].0) && r[c].1 == levels[i].1);
        }
    } else {
        assert forall|j: int| i < j < pre.len() implies !value_eq(#[trigger] pre[j].0, pre[i].0) by {
            assert(pre[j] == levels[j] && pre[i] == levels[i]);
        }
        lemma_side_of_keeps_level(pre, i);
        assert(pre[i] == levels[i]);
        let p = choose|p: int| 0 <= p < s.len() && value_eq(#[trigger] s[p].0, pre[i].0) && s[p].1 == pre[i].1;
        assert(!value_eq(k, levels[i].0));
        if c < s.len() && value_eq(s[c].0, k) {
            if p == c {
                lemma_value_order(s[c].0, k, levels[i].0);
                lemma_value_order(k, s[c].0, levels[i].0);
            }
            assert(r[p] == s[p]);
            assert(0 <= p < r.len() && value_eq(r[p].0, levels[i].0) && r[p].1 == levels[i].1);
        } else {
            if p < c {
                assert(r[p] == s[p]);
                assert(0 <= p < r.len() && value_eq(r[p].0, levels[i].0) && r[p].1 == levels[i].1);
            } else {
                assert(r[p + 1] == s[p]);
                assert(0 <= p + 1 < r.len() && value_eq(r[p + 1].0, levels[i].0) && r[p + 1].1 == levels[i].1);
            }
        }
    }
}

/// An order-level book keeps each level of its update: for a level that no
/// later level of the same price value replaces, the side has a level of that
/// price value holding exactly the update level's quantity and its orders'
/// quantities.
pub proof fn lemma_l3_side_keeps_levels(ls: Seq<L3BookLevel>, i: int)
    requires
        0 <= i < ls.len(),
        forall|j: int| i < j < ls.len() ==> !value_eq(#[trigger] ls[j].price, ls[i].price),
    ensures
        exists|p: int|
            0 <= p < side_of(l3_levels(ls)).len() && value_eq(#[trigger] side_of(l3_levels(ls))[p].0, ls[i].price)
                && side_of(l3_levels(ls))[p].1.quantity == ls[i].quantity
                && side_of(l3_levels(ls))[p].1.order_quantities == Some(ls[i].order_quantities@),
{
    let lv = l3_levels(ls);
    assert forall|j: int| i < j < lv.len() implies !value_eq(#[trigger] lv[j].0, lv[i].0) by {
        assert(lv[j].0 == ls[j].price && lv[i].0 == ls[i].price);
    }
    lemma_side_of_keeps_level(lv, i);
}

/// A price-level book keeps each level of its update: for a level that no
/// later level of the same price value replaces, the side has a level of that
/// price value holding exactly the update level's quantity, with no orders.
pub proof fn lemma_l2_side_keeps_levels(ls: Seq<L2BookLevel>, i: int)
    requires
        0 <= i < ls.len(),
        forall|j: int| i < j < ls.len() ==> !value_eq(#[trigger] ls[j].price, ls[i].price),
    ensures
        exists|p: int|
            0 <= p < side_of(l2_levels(ls)).len() && value_eq(#[trigger] side_of(l2_levels(ls))[p].0, ls[i].price)
                && side_of(l2_levels(ls))[p].1.quantity == ls[i].quantity
                && side_of(l2_levels(ls))[p].1.order_quantities is None,
{
    let lv = l2_levels(ls);
    assert forall|j: int| i < j < lv.len() implies !value_eq(#[trigger] lv[j].0, lv[i].0) by {
        assert(lv[j].0 == ls[j].price && lv[i].0 == ls[i].price);
    }
    lemma_side_of_keeps_level(lv, i);
}

/// Sets level `level` at price `k` on an increasing side.
fn insert_level(side: &mut Vec<(Decimal, OrderbookLevel)>, k: Decimal, level: OrderbookLevel)
    requires
        strictly_increasing(old(side)@.map_values(|e: (Decimal, OrderbookLevel)| (e.0, e.1@))),
    ensures
        final(side)@.map_values(|e: (Decimal, OrderbookLevel)| (e.0, e.1@)) == side_insert(
            old(side)@.map_values(|e: (Decimal, OrderbookLevel)| (e.0, e.1@)),
            k,
            level@,
        ),
        strictly_increasing(final(side)@.map_values(|e: (Decimal, OrderbookLevel)| (e.0, e.1@))),
{
    let ghost s = side@.map_values(|e: (Decimal, OrderbookLevel)| (e.0, e.1@));
    let mut i: usize = 0;
    while i < side.len() && side[i].0.lt_value(&k)
        invariant
            i <= side@.len(),
            s == side@.map_values(|e: (Decimal, OrderbookLevel)| (e.0, e.1@)),
            forall|j: int| 0 <= j < i ==> value_lt(#[trigger] s[j].0, k),
        decreases side.len() - i,
    {
        i = i + 1;
    }
    proof {
        lemma_count_below_prefix(s, k, i as int);
        lemma_side_insert_increasing(s, k, level@);
    }
    if i < side.len() && side[i].0.eq_value(&k) {
        let key = side[i].0;
        side.set(i, (key, level));
        assert(side@.map_values(|e: (Decimal, OrderbookLevel)| (e.0, e.1@)) =~= side_insert(s, k, level@));
    } else {
        let ghost lv = level@;
        side.insert(i, (k, level));
        assert(side@.map_values(|e: (Decimal, OrderbookLevel)| (e.0, e.1@)) =~= s.insert(i as int, (k, lv)));
    }
}

/// An order book: bids and asks, each in increasing order of price with one
/// level per price value.
#[derive(Debug)]
pub struct Orderbook {
    bids: Vec<(Decimal, OrderbookLevel)>,
    asks: Vec<(Decimal, OrderbookLevel)>,
}

/// The price/level pairs of a side as values.
pub open spec fn side_view(v: Seq<(Decimal, OrderbookLevel)>) -> SideView {
    v.map_values(|e: (Decimal, OrderbookLevel)| (e.0, e.1@))
}

/// The levels of an update as price/level pairs.
pub open spec fn l2_levels(ls: Seq<L2BookLevel>) -> SideView {
    ls.map_values(|l: L2BookLevel| (l.price, LevelView { quantity: l.quantity, order_quantities: None }))
}

/// The levels of an order-level update as price/level pairs.
pub open spec fn l3_levels(ls: Seq<L3BookLevel>) -> SideView {
    ls.map_values(|l: L3BookLevel| (l.price, LevelView { quantity: l.quantity, order_quantities: Some(l.order_quantities@) }))
}

impl Orderbook {
    #[verifier::type_invariant]
    spec fn sides_increasing(self) -> bool {
        &&& strictly_increasing(side_view(self.bids@))
        &&& strictly_increasing(side_view(self.asks@))
    }

    /// The bid levels, by increasing price.
    pub closed spec fn bids_view(&self) -> SideView {
        side_view(self.bids@)
    }

    /// The ask levels, by increasing price.
    pub closed spec fn asks_view(&self) -> SideView {
        side_view(self.asks@)
    }

    /// The bid levels, by increasing price; no two share a price value.
    pub fn bids(&self) -> (r: &[(Decimal, OrderbookLevel)])
        ensures
            side_view(r@) == self.bids_view(),
            strictly_increasing(self.bids_view()),
    {
        proof {
            use_type_invariant(self);
        }
        self.bids.as_slice()
    }

    /// The ask levels, by increasing price; no two share a price value.
    pub fn asks(&self) -> (r: &[(Decimal, OrderbookLevel)])
        ensures
            side_view(r@) == self.asks_view(),
            strictly_increasing(self.asks_view()),
    {
        proof {
            use_type_invariant(self);
        }
        self.asks.as_slice()
    }

    /// The book of a price-level update: each side holds its levels, set in
    /// the order given (a later level at the same price value replaces an
    /// earlier one).
    pub fn from_update<S>(u: &BookUpdateData<S, L2BookLevel>) -> (r: Orderbook)
        ensures
            r.bids_view() == side_of(l2_levels(u.bids@)),
            r.asks_view() == side_of(l2_levels(u.asks@)),
    {
        let bids = side_from_l2(&u.bids);
        let asks = side_from_l2(&u.asks);
        Orderbook { bids, asks }
    }

    /// The book of an order-level update, keeping the orders' quantities.
    pub fn from_l3_update<S>(u: &BookUpdateData<S, L3BookLevel>) -> (r: Orderbook)
        ensures
            r.bids_view() == side_of(l3_levels(u.bids@)),
            r.asks_view() == side_of(l3_levels(u.asks@)),
    {
        let bids = side_from_l3(&u.bids);
        let asks = side_from_l3(&u.asks);
        Orderbook { bids, asks }
    }
}

/// The side made of price-level update levels.
fn side_from_l2(levels: &Vec<L2BookLevel>) -> (r: Vec<(Decimal, OrderbookLevel)>)
    ensures
        side_view(r@) == side_of(l2_levels(levels@)),
        strictly_increasing(side_view(r@)),
{
    let mut side: Vec<(Decimal, OrderbookLevel)> = Vec::new();
    let mut i: usize = 0;
    assert(side_view(side@) =~= Seq::<(Decimal, LevelView)>::empty());
    while i < levels.len()
        invariant
            i <= levels@.len(),
            side_view(side@) == side_of(l2_levels(levels@).take(i as int)),
            strictly_increasing(side_view(side@)),
        decreases levels.len() - i,
    {
        let l = levels[i];
        assert(l2_levels(levels@).take(i + 1).drop_last() =~= l2_levels(levels@).take(i as int));
        insert_level(&mut side, l.price, OrderbookLevel { quantity: l.quantity, order_quantities: None });
        i = i + 1;
    }
    assert(l2_levels(levels@).take(i as int) =~= l2_levels(levels@));
    side
}

/// The side made of order-level update levels.
fn side_from_l3(levels: &Vec<L3BookLevel>) -> (r: Vec<(Decimal, OrderbookLevel)>)
    ensures
        side_view(r@) == side_of(l3_levels(levels@)),
        strictly_increasing(side_view(r@)),
{
    let mut side: Vec<(Decimal, OrderbookLevel)> = Vec::new();
    let mut i: usize = 0;
    assert(side_view(side@) =~= Seq::<(Decimal, LevelView)>::empty());
    while i < levels.len()
        invariant
            i <= levels@.len(),
            side_view(side@) == side_of(l3_levels(levels@).take(i as int)),
            strictly_increasing(side_view(side@)),
        decreases levels.len() - i,
    {
        let l = &levels[i];
        let qs = copy_quantities(&l.order_quantities);
        assert(l3_levels(levels@).take(i + 1).drop_last() =~= l3_levels(levels@).take(i as int));
        insert_level(&mut side, l.price, OrderbookLevel { quantity: l.quantity, order_quantities: Some(qs) });
        i = i + 1;
    }
    assert(l3_levels(levels@).take(i as int) =~= l3_levels(levels@));
    side
}

/// A copy of a list of quantities.
fn copy_quantities(v: &Vec<u64>) -> (r: Vec<u64>)
    ensures
        r@ == v@,
{
    let mut out: Vec<u64> = Vec::new();
    let mut i: usize = 0;
    while i < v.len()
        invariant
            i <= v@.len(),
            out@ == v@.take(i as int),
        decreases v.len() - i,
    {
        out.push(v[i]);
        i = i + 1;
        assert(out@ =~= v@.take(i as int));
    }
    assert(v@.take(i as int) =~= v@);
    out
}

} // verus!
