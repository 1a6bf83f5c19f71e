//! The subscription book-keeping of the market-data WebSocket client: the
//! set of live subscriptions, replayed in order after every reconnect, and
//! the ids of the requests it sends.
use vstd::prelude::*;
use crate::text::str_eq;
use crate::protocol::marketdata_publisher::{MarketdataRequest, MarketdataRequestView, SubscriptionLevel, request_text};
use crate::types::trading::CandleWidth;

verus! {

/// A live market-data subscription.
#[derive(Debug, Clone)]
pub enum Subscription {
    /// Book, ticker and trade updates of a symbol at a level.
    Level { symbol: String, level: SubscriptionLevel },
    /// Candles of a symbol at a width.
    Candles { symbol: String, width: CandleWidth },
    /// Best-bid/offer candles of a symbol at a width.
    BboCandles { symbol: String, width: CandleWidth },
}

/// The abstract value of a subscription.
pub enum SubscriptionView {
    Level { symbol: Seq<char>, level: SubscriptionLevel },
    Candles { symbol: Seq<char>, width: CandleWidth },
    BboCandles { symbol: Seq<char>, width: CandleWidth },
}

impl View for Subscription {
    type V = SubscriptionView;

    open spec fn view(&self) -> SubscriptionView {
        match self {
            Subscription::Level { symbol, level } => SubscriptionView::Level { symbol: symbol@, level: *level },
            Subscription::Candles { symbol, width } => SubscriptionView::Candles { symbol: symbol@, width: *width },
            Subscription::BboCandles { symbol, width } => SubscriptionView::BboCandles {
                symbol: symbol@,
                width: *width,
            },
        }
    }
}

/// The request that (re)establishes a subscription (book levels keep their
/// trades and ticker).
pub open spec fn subscription_request(s: SubscriptionView) -> MarketdataRequestView {
    match s {
        SubscriptionView::Level { symbol, level } => MarketdataRequestView::Subscribe {
            symbol,
            level,
            trades: true,
            ticker: true,
        },
        SubscriptionView::Candles { symbol, width } => MarketdataRequestView::SubscribeCandles { symbol, width },
        SubscriptionView::BboCandles { symbol, width } => MarketdataRequestView::SubscribeBboCandles { symbol, width },
    }
}

impl Subscription {
    /// The request that (re)establishes the subscription, sent with id
    /// `*request_id`, which then moves to the next id.
    pub fn to_request(&self, request_id: &mut i32) -> (r: String)
        requires
            *old(request_id) < i32::MAX,
        ensures
            *final(request_id) == *old(request_id) + 1,
            r@ == request_text(*old(request_id), subscription_request(self@)),
    {
        let rid = *request_id;
        let text = match self {
            Subscription::Level { symbol, level } => MarketdataRequest::Subscribe {
                symbol: symbol.as_str(),
                level: *level,
                trades: true,
                ticker: true,
            }.to_request_text(rid),
            Subscription::Candles { symbol, width } => MarketdataRequest::SubscribeCandles {
                symbol: symbol.as_str(),
                width: *width,
            }.to_request_text(rid),
            Subscription::BboCandles { symbol, width } => MarketdataRequest::SubscribeBboCandles {
                symbol: symbol.as_str(),
                width: *width,
            }.to_request_text(rid),
        };
        *request_id = rid + 1;
        text
    }
}

/// Whether two subscriptions are the same.
pub fn same_subscription(a: &Subscription, b: &Subscription) -> (r: bool)
    ensures
        r == (a@ == b@),
{
    match (a, b) {
        (Subscription::Level { symbol: s1, level: l1 }, Subscription::Level { symbol: s2, level: l2 }) => {
            *l1 == *l2 && str_eq(s1.as_str(), s2.as_str())
        },
        (Subscription::Candles { symbol: s1, width: w1 }, Subscription::Candles { symbol: s2, width: w2 }) => {
            *w1 == *w2 && str_eq(s1.as_str(), s2.as_str())
        },
        (Subscription::BboCandles { symbol: s1, width: w1 }, Subscription::BboCandles { symbol: s2, width: w2 }) => {
            *w1 == *w2 && str_eq(s1.as_str(), s2.as_str())
        },
        _ => false,
    }
}

/// Which subscriptions an unsubscribe request ends.
#[derive(Debug, Clone)]
pub enum Unsubscription {
    /// Every level subscription of the symbol.
    Level { symbol: String },
    /// The candle subscription of the symbol at the width.
    Candles { symbol: String, width: CandleWidth },
    /// The best-bid/offer candle subscription of the symbol at the width.
    BboCandles { symbol: String, width: CandleWidth },
}

/// Whether unsubscribing `u` ends subscription `s`.
pub open spec fn ends(u: Unsubscription, s: SubscriptionView) -> bool {
    match (u, s) {
        (Unsubscription::Level { symbol: a }, SubscriptionView::Level { symbol: b, .. }) => a@ == b,
        (Unsubscription::Candles { symbol: a, width: w }, SubscriptionView::Candles { symbol: b, width: v }) => a@ == b && w
            == v,
        (Unsubscription::BboCandles { symbol: a, width: w }, SubscriptionView::BboCandles { symbol: b, width: v }) => a@
            == b && w == v,
        _ => false,
    }
}

/// `s` without the elements for which `doomed` holds, in order.
pub open spec fn keep_unless(s: Seq<SubscriptionView>, doomed: spec_fn(SubscriptionView) -> bool) -> Seq<SubscriptionView>
    decreases s.len(),
{
    if s.len() == 0 {
        Seq::empty()
    } else {
        let rest = keep_unless(s.drop_last(), doomed);
        if doomed(s.last()) {
            rest
        } else {
            rest.push(s.last())
        }
    }
}

/// What `keep_unless` keeps comes from `s`, is not doomed, and every element
/// of `s` that is not doomed is kept; no duplicate appears that `s` lacks.
pub proof fn lemma_keep_unless(s: Seq<SubscriptionView>, doomed: spec_fn(SubscriptionView) -> bool)
    ensures
        forall|x: SubscriptionView| #[trigger] keep_unless(s, doomed).contains(x) <==> (s.contains(x) && !doomed(x)),
        s.no_duplicates() ==> keep_unless(s, doomed).no_duplicates(),
    decreases s.len(),
{
    if s.len() > 0 {
        let t = s.drop_last();
        lemma_keep_unless(t, doomed);
        assert forall|x: SubscriptionView| #[trigger] s.contains(x) <==> (t.contains(x) || x == s.last()) by {
            if s.contains(x) {
                let i = choose|i: int| 0 <= i < s.len() && s[i] == x;
                if i < s.len() - 1 {
                    assert(t[i] == x);
                }
            }
            if t.contains(x) {
                let i = choose|i: int| 0 <= i < t.len() && t[i] == x;
                assert(s[i] == x);
            }
            if x == s.last() {
                assert(s[s.len() - 1] == x);
            }
        }
        if s.no_duplicates() {
            assert(t.no_duplicates()) by {
                assert forall|i: int, j: int| 0 <= i < t.len() && 0 <= j < t.len() && i != j implies t[i] != t[j] by {
                    assert(s[i] == t[i] && s[j] == t[j]);
                }
            }
            if !t.contains(s.last()) {
            } else {
                let i = choose|i: int| 0 <= i < t.len() && t[i] == s.last();
                assert(s[i] == s[s.len() - 1]);
            }
        }
        let rest = keep_unless(t, doomed);
        if !doomed(s.last()) && s.no_duplicates() {
            let r2 = rest.push(s.last());
            assert(!rest.contains(s.last()));
            assert forall|i: int, j: int| 0 <= i < r2.len() && 0 <= j < r2.len() && i != j implies r2[i] != r2[j] by {
                if i == rest.len() {
                    assert(rest[j] == r2[j]);
                } else if j == rest.len() {
                    assert(rest[i] == r2[i]);
                } else {
                    assert(rest[i] == r2[i] && rest[j] == r2[j]);
                }
            }
        }
        if !doomed(s.last()) {
            assert forall|x: SubscriptionView| #[trigger] rest.push(s.last()).contains(x) <==> (rest.contains(x) || x == s.last()) by {
                if rest.push(s.last()).contains(x) {
                    let i = choose|i: int| 0 <= i < rest.len() + 1 && rest.push(s.last())[i] == x;
                    if i < rest.len() {
                        assert(rest[i] == x);
                    }
                }
                if rest.contains(x) {
                    let i = choose|i: int| 0 <= i < rest.len() && rest[i] == x;
                    assert(rest.push(s.last())[i] == x);
                }
                if x == s.last() {
                    assert(rest.push(s.last())[rest.len() as int] == x);
                }
            }
        }
    }
}

/// The live subscriptions, in the order they were made; none occurs twice.
#[derive(Debug)]
pub struct SubscriptionSet {
    subs: Vec<Subscription>,
}

impl View for SubscriptionSet {
    type V = Seq<SubscriptionView>;

    closed spec fn view(&self) -> Seq<SubscriptionView> {
        self.subs@.map_values(|s: Subscription| s@)
    }
}

impl SubscriptionSet {
    #[verifier::type_invariant]
    spec fn distinct(self) -> bool {
        self@.no_duplicates()
    }

    /// No subscriptions.
    pub fn new() -> (r: SubscriptionSet)
        ensures
            r@ == Seq::<SubscriptionView>::empty(),
    {
        let r = SubscriptionSet { subs: Vec::new() };
        assert(r@ =~= Seq::<SubscriptionView>::empty());
        r
    }

    /// The number of subscriptions.
    pub fn len(&self) -> (r: usize)
        ensures
            r == self@.len(),
            self@.no_duplicates(),
    {
        proof {
            use_type_invariant(self);
        }
        self.subs.len()
    }

    /// Whether `sub` is live.
    pub fn contains(&self, sub: &Subscription) -> (r: bool)
        ensures
            r == self@.contains(sub@),
    {
        let mut i: usize = 0;
        while i < self.subs.len()
            invariant
                i <= self.subs@.len(),
                self@ == self.subs@.map_values(|s: Subscription| s@),
                forall|j: int| 0 <= j < i ==> self@[j] != sub@,
            decreases self.subs.len() - i,
        {
            if same_subscription(&self.subs[i], sub) {
                assert(self@[i as int] == sub@);
                return true;
            }
            i = i + 1;
        }
        false
    }

    /// Adds `sub` at the end unless it is already live.
    pub fn add(&mut self, sub: Subscription)
        ensures
            old(self)@.contains(sub@) ==> final(self)@ == old(self)@,
            !old(self)@.contains(sub@) ==> final(self)@ == old(self)@.push(sub@),
    {
        proof {
            use_type_invariant(&*self);
        }
        if !self.contains(&sub) {
            let ghost before = self@;
            let mut subs: Vec<Subscription> = Vec::new();
            std::mem::swap(&mut subs, &mut self.subs);
            assert(subs@.map_values(|s: Subscription| s@) == before);
            subs.push(sub);
            assert(subs@.map_values(|s: Subscription| s@) =~= before.push(sub@));
            proof {
                assert forall|i: int, j: int| 0 <= i < before.push(sub@).len() && 0 <= j < before.push(sub@).len() && i
                    != j implies before.push(sub@)[i] != before.push(sub@)[j] by {
                    if i == before.len() {
                        assert(before[j] != sub@);
                    } else if j == before.len() {
                        assert(before[i] != sub@);
                    }
                }
            }
            self.subs = subs;
        }
    }

    /// Removes the subscriptions for which `same` with `sub` holds: `sub` itself.
    pub fn remove(&mut self, sub: &Subscription)
        ensures
            final(self)@ == keep_unless(old(self)@, |s: SubscriptionView| s == sub@),
    {
        proof {
            use_type_invariant(&*self);
        }
        let ghost doomed = |s: SubscriptionView| s == sub@;
        let ghost before = self@;
        let mut subs: Vec<Subscription> = Vec::new();
        std::mem::swap(&mut subs, &mut self.subs);
        assert(subs@.map_values(|s: Subscription| s@) == before);
        let mut out: Vec<Subscription> = Vec::new();
        let mut i: usize = 0;
        while i < subs.len()
            invariant
                i <= subs@.len(),
                before == subs@.map_values(|s: Subscription| s@),
                forall|x: SubscriptionView| #[trigger] doomed(x) == (x == sub@),
                out@.map_values(|s: Subscription| s@) == keep_unless(before.take(i as int), doomed),
            decreases subs.len() - i,
        {
            assert(before.take(i + 1).drop_last() =~= before.take(i as int));
            assert(before.take(i + 1).last() == subs@[i as int]@);
            let gone = same_subscription(&subs[i], sub);
            assert(gone == doomed(before.take(i + 1).last()));
            if !gone {
                out.push(subs[i].clone_subscription());
                assert(out@.map_values(|s: Subscription| s@) =~= keep_unless(before.take(i as int), doomed).push(
                    subs@[i as int]@,
                ));
            } else {
                assert(keep_unless(before.take(i + 1), doomed) == keep_unless(before.take(i as int), doomed));
            }
            i = i + 1;
        }
        assert(before.take(i as int) =~= before);
        proof {
            lemma_keep_unless(before, doomed);
        }
        self.subs = out;
    }

    /// Removes the subscriptions that `u` ends.
    pub fn remove_ended(&mut self, u: &Unsubscription)
        ensures
            final(self)@ == keep_unless(old(self)@, |s: SubscriptionView| ends(*u, s)),
    {
        proof {
            use_type_invariant(&*self);
        }
        let ghost doomed = |s: SubscriptionView| ends(*u, s);
        let ghost before = self@;
        let mut subs: Vec<Subscription> = Vec::new();
        std::mem::swap(&mut subs, &mut self.subs);
        assert(subs@.map_values(|s: Subscription| s@) == before);
        let mut out: Vec<Subscription> = Vec::new();
        let mut i: usize = 0;
        while i < subs.len()
            invariant
                i <= subs@.len(),
                before == subs@.map_values(|s: Subscription| s@),
                forall|x: SubscriptionView| #[trigger] doomed(x) == ends(*u, x),
                out@.map_values(|s: Subscription| s@) == keep_unless(before.take(i as int), doomed),
            decreases subs.len() - i,
        {
            assert(before.take(i + 1).drop_last() =~= before.take(i as int));
            assert(before.take(i + 1).last() == subs@[i as int]@);
            let gone = ends_subscription(u, &subs[i]);
            assert(gone == doomed(before.take(i + 1).last()));
            if !gone {
                out.push(subs[i].clone_subscription());
                assert(out@.map_values(|s: Subscription| s@) =~= keep_unless(before.take(i as int), doomed).push(
                    subs@[i as int]@,
                ));
            } else {
                assert(keep_unless(before.take(i + 1), doomed) == keep_unless(before.take(i as int), doomed));
            }
            i = i + 1;
        }
        assert(before.take(i as int) =~= before);
        proof {
            lemma_keep_unless(before, doomed);
        }
        self.subs = out;
    }

    /// The requests that re-establish every subscription, in order, with
    /// ids 1, 2, 3, ... (sent after each reconnect).
    pub fn replay_requests(&self) -> (r: Vec<String>)
        requires
            self@.len() < i32::MAX,
        ensures
            r@.len() == self@.len(),
            forall|i: int| 0 <= i < r@.len() ==> (#[trigger] r@[i])@ == request_text(
                (i + 1) as i32,
                subscription_request(self@[i]),
            ),
    {
        let mut out: Vec<String> = Vec::new();
        let mut id: i32 = 1;
        let mut i: usize = 0;
        while i < self.subs.len()
            invariant
                i <= self.subs@.len(),
                self.subs@.len() < i32::MAX,
                id == i + 1,
                self@ == self.subs@.map_values(|s: Subscription| s@),
                out@.len() == i,
                forall|k: int| 0 <= k < i ==> (#[trigger] out@[k])@ == request_text(
                    (k + 1) as i32,
                    subscription_request(self@[k]),
                ),
            decreases self.subs.len() - i,
        {
            let text = self.subs[i].to_request(&mut id);
            out.push(text);
            i = i + 1;
        }
        out
    }
}

/// Whether unsubscribing `u` ends subscription `s`.
fn ends_subscription(u: &Unsubscription, s: &Subscription) -> (r: bool)
    ensures
        r == ends(*u, s@),
{
    match (u, s) {
        (Unsubscription::Level { symbol: a }, Subscription::Level { symbol: b, .. }) => str_eq(a.as_str(), b.as_str()),
        (Unsubscription::Candles { symbol: a, width: w }, Subscription::Candles { symbol: b, width: v }) => *w == *v
            && str_eq(a.as_str(), b.as_str()),
        (Unsubscription::BboCandles { symbol: a, width: w }, Subscription::BboCandles { symbol: b, width: v }) => *w
            == *v && str_eq(a.as_str(), b.as_str()),
        _ => false,
    }
}

impl Subscription {
    /// A copy of the subscription.
    pub fn clone_subscription(&self) -> (r: Subscription)
        ensures
            r@ == self@,
    {
        match self {
            Subscription::Level { symbol, level } => Subscription::Level { symbol: symbol.clone(), level: *level },
            Subscription::Candles { symbol, width } => Subscription::Candles { symbol: symbol.clone(), width: *width },
            Subscription::BboCandles { symbol, width } => Subscription::BboCandles {
                symbol: symbol.clone(),
                width: *width,
            },
        }
    }
}

/// The request-side state of a market-data connection: the live
/// subscriptions and the id of the next request.
#[derive(Debug)]
pub struct MarketdataSession {
    subscriptions: SubscriptionSet,
    next_request_id: i32,
}

impl MarketdataSession {
    /// No subscriptions; the first request gets id 1.
    pub fn new() -> (r: MarketdataSession)
        ensures
            r.live() == Seq::<SubscriptionView>::empty(),
            r.next_request_id() == 1,
    {
        MarketdataSession { subscriptions: SubscriptionSet::new(), next_request_id: 1 }
    }

    /// The live subscriptions.
    pub closed spec fn live(&self) -> Seq<SubscriptionView> {
        self.subscriptions@
    }

    /// The live subscriptions.
    pub fn subscriptions(&self) -> (r: &SubscriptionSet)
        ensures
            r@ == self.live(),
    {
        &self.subscriptions
    }

    /// The id the next request gets.
    pub closed spec fn next_request_id(&self) -> i32 {
        self.next_request_id
    }

    /// The id the next request gets.
    pub fn peek_request_id(&self) -> (r: i32)
        ensures
            r == self.next_request_id(),
    {
        self.next_request_id
    }

    /// Takes the next request id and frames `request` with it.
    pub fn frame(&mut self, request: &MarketdataRequest) -> (r: (i32, String))
        requires
            old(self).next_request_id() < i32::MAX,
        ensures
            r.0 == old(self).next_request_id(),
            final(self).next_request_id() == old(self).next_request_id() + 1,
            r.1@ == request_text(r.0, request@),
            final(self).live() == old(self).live(),
    {
        let id = self.next_request_id;
        self.next_request_id = id + 1;
        (id, request.to_request_text(id))
    }

    /// Subscribes to `symbol` at `level`: records the subscription (unless
    /// live already) and frames the request.
    pub fn subscribe(&mut self, symbol: &str, level: SubscriptionLevel) -> (r: (i32, String))
        requires
            old(self).next_request_id() < i32::MAX,
        ensures
            ({
                let sub = SubscriptionView::Level { symbol: symbol@, level };
                &&& old(self).live().contains(sub) ==> final(self).live() == old(self).live()
                &&& !old(self).live().contains(sub) ==> final(self).live()
                    == old(self).live().push(sub)
            }),
            r.0 == old(self).next_request_id(),
            final(self).next_request_id() == old(self).next_request_id() + 1,
            r.1@ == request_text(
                r.0,
                MarketdataRequestView::Subscribe { symbol: symbol@, level, trades: true, ticker: true },
            ),
    {
        self.subscriptions.add(Subscription::Level { symbol: String::from_str(symbol), level });
        self.frame(&MarketdataRequest::Subscribe { symbol, level, trades: true, ticker: true })
    }

    /// Subscribes to `symbol`'s candles of `width`.
    pub fn subscribe_candles(&mut self, symbol: &str, width: CandleWidth) -> (r: (i32, String))
        requires
            old(self).next_request_id() < i32::MAX,
        ensures
            ({
                let sub = SubscriptionView::Candles { symbol: symbol@, width };
                &&& old(self).live().contains(sub) ==> final(self).live() == old(self).live()
                &&& !old(self).live().contains(sub) ==> final(self).live()
                    == old(self).live().push(sub)
            }),
            r.0 == old(self).next_request_id(),
            final(self).next_request_id() == old(self).next_request_id() + 1,
            r.1@ == request_text(r.0, MarketdataRequestView::SubscribeCandles { symbol: symbol@, width }),
    {
        self.subscriptions.add(Subscription::Candles { symbol: String::from_str(symbol), width });
        self.frame(&MarketdataRequest::SubscribeCandles { symbol, width })
    }

    /// Subscribes to `symbol`'s best-bid/offer candles of `width`.
    pub fn subscribe_bbo_candles(&mut self, symbol: &str, width: CandleWidth) -> (r: (i32, String))
        requires
            old(self).next_request_id() < i32::MAX,
        ensures
            ({
                let sub = SubscriptionView::BboCandles { symbol: symbol@, width };
                &&& old(self).live().contains(sub) ==> final(self).live() == old(self).live()
                &&& !old(self).live().contains(sub) ==> final(self).live()
                    == old(self).live().push(sub)
            }),
            r.0 == old(self).next_request_id(),
            final(self).next_request_id() == old(self).next_request_id() + 1,
            r.1@ == request_text(r.0, MarketdataRequestView::SubscribeBboCandles { symbol: symbol@, width }),
    {
        self.subscriptions.add(Subscription::BboCandles { symbol: String::from_str(symbol), width });
        self.frame(&MarketdataRequest::SubscribeBboCandles { symbol, width })
    }

    /// Forgets a subscription whose request the server refused.
    pub fn subscription_refused(&mut self, sub: &Subscription)
        ensures
            final(self).live() == keep_unless(old(self).live(), |s: SubscriptionView| s == sub@),
            final(self).next_request_id() == old(self).next_request_id(),
    {
        self.subscriptions.remove(sub);
    }

    /// Unsubscribes from `symbol`'s level subscriptions: forgets them and
    /// frames the request.
    pub fn unsubscribe(&mut self, symbol: &str) -> (r: (i32, String))
        requires
            old(self).next_request_id() < i32::MAX,
        ensures
            final(self).live() == keep_unless(
                old(self).live(),
                |s: SubscriptionView| s matches SubscriptionView::Level { symbol: t, .. } && t == symbol@,
            ),
            r.0 == old(self).next_request_id(),
            final(self).next_request_id() == old(self).next_request_id() + 1,
            r.1@ == request_text(r.0, MarketdataRequestView::Unsubscribe { symbol: symbol@ }),
    {
        let u = Unsubscription::Level { symbol: String::from_str(symbol) };
        self.subscriptions.remove_ended(&u);
        proof {
            assert((|s: SubscriptionView| ends(u, s)) =~= (|s: SubscriptionView| s matches SubscriptionView::Level {
                symbol: t,
                ..
            } && t == symbol@));
        }
        self.frame(&MarketdataRequest::Unsubscribe { symbol })
    }

    /// Unsubscribes from `symbol`'s candles of `width`.
    pub fn unsubscribe_candles(&mut self, symbol: &str, width: CandleWidth) -> (r: (i32, String))
        requires
            old(self).next_request_id() < i32::MAX,
        ensures
            final(self).live() == keep_unless(
                old(self).live(),
                |s: SubscriptionView| s == SubscriptionView::Candles { symbol: symbol@, width },
            ),
            r.0 == old(self).next_request_id(),
            final(self).next_request_id() == old(self).next_request_id() + 1,
            r.1@ == request_text(r.0, MarketdataRequestView::UnsubscribeCandles { symbol: symbol@, width }),
    {
        let u = Unsubscription::Candles { symbol: String::from_str(symbol), width };
        self.subscriptions.remove_ended(&u);
        proof {
            assert((|s: SubscriptionView| ends(u, s)) =~= (|s: SubscriptionView| s == SubscriptionView::Candles {
                symbol: symbol@,
                width,
            }));
        }
        self.frame(&MarketdataRequest::UnsubscribeCandles { symbol, width })
    }

    /// Unsubscribes from `symbol`'s best-bid/offer candles of `width`.
    pub fn unsubscribe_bbo_candles(&mut self, symbol: &str, width: CandleWidth) -> (r: (i32, String))
        requires
            old(self).next_request_id() < i32::MAX,
        ensures
            final(self).live() == keep_unless(
                old(self).live(),
                |s: SubscriptionView| s == SubscriptionView::BboCandles { symbol: symbol@, width },
            ),
            r.0 == old(self).next_request_id(),
            final(self).next_request_id() == old(self).next_request_id() + 1,
            r.1@ == request_text(r.0, MarketdataRequestView::UnsubscribeBboCandles { symbol: symbol@, width }),
    {
        let u = Unsubscription::BboCandles { symbol: String::from_str(symbol), width };
        self.subscriptions.remove_ended(&u);
        proof {
            assert((|s: SubscriptionView| ends(u, s)) =~= (|s: SubscriptionView| s == SubscriptionView::BboCandles {
                symbol: symbol@,
                width,
            }));
        }
        self.frame(&MarketdataRequest::UnsubscribeBboCandles { symbol, width })
    }
}

/// Subscribing records a subscription that then is live; unsubscribing a
/// symbol leaves none of its level subscriptions live and keeps every other.
pub proof fn lemma_subscribe_then_unsubscribe(subs: Seq<SubscriptionView>, symbol: Seq<char>, level: SubscriptionLevel)
    ensures
        ({
            let sub = SubscriptionView::Level { symbol, level };
            let after = if subs.contains(sub) { subs } else { subs.push(sub) };
            &&& after.contains(sub)
            &&& !keep_unless(after, |s: SubscriptionView| s matches SubscriptionView::Level { symbol: t, .. } && t == symbol).contains(sub)
        }),
        forall|x: SubscriptionView| #[trigger] subs.contains(x) && !(x matches SubscriptionView::Level { symbol: t, .. } && t == symbol)
            ==> keep_unless(subs, |s: SubscriptionView| s matches SubscriptionView::Level { symbol: t, .. } && t == symbol).contains(x),
{
    let sub = SubscriptionView::Level { symbol, level };
    let after = if subs.contains(sub) { subs } else { subs.push(sub) };
    if !subs.contains(sub) {
        assert(after[subs.len() as int] == sub);
    }
    let doomed = |s: SubscriptionView| s matches SubscriptionView::Level { symbol: t, .. } && t == symbol;
    lemma_keep_unless(after, doomed);
    lemma_keep_unless(subs, doomed);
}

} // verus!
