//! The decisions of the local positioning strategy that need no arithmetic
//! on coordinates: resolving readings against the catalog and ranking them
//! from the nearest beacon outwards.

use vstd::prelude::*;

use crate::beacon::{Beacon, BeaconId};
use crate::registry::{find_beacon_by_id, lookup};
use crate::signal::{path_loss_of, Signal};
use vstd::seq_lib::{to_multiset_build, to_multiset_insert};

verus! {

/// Why a batch yields no position.
#[derive(Debug, PartialEq, Eq, Structural)]
pub enum PositioningError {
    /// No reading of the batch could be used.
    InsufficientMeasurements,
    /// The solver found no best point.
    OptimizationFailed,
}

/// The reading `s` resolved against `catalog`, when its identity is known.
pub open spec fn resolved_one<P>(catalog: Seq<Beacon<P>>, s: Signal<BeaconId>) -> Option<
    Signal<Beacon<P>>,
> {
    match lookup(catalog, s.beacon.uuid@, s.beacon.major, s.beacon.minor) {
        Some(b) => Some(Signal { beacon: b, tx_power: s.tx_power, rssi: s.rssi, rx_ts: s.rx_ts }),
        None => None,
    }
}

/// The readings of `s` whose identity is in `catalog`, resolved, in order.
pub open spec fn resolved<P>(catalog: Seq<Beacon<P>>, s: Seq<Signal<BeaconId>>) -> Seq<
    Signal<Beacon<P>>,
> {
    s.filter_map(|x: Signal<BeaconId>| resolved_one(catalog, x))
}

/// The readings of `s` whose path loss is `k`, in order.
pub open spec fn with_loss<T>(s: Seq<Signal<T>>, k: int) -> Seq<Signal<T>> {
    s.filter(|x: Signal<T>| path_loss_of(x) == k)
}

/// Path loss does not decrease along `s`.
pub open spec fn ordered_by_loss<T>(s: Seq<Signal<T>>) -> bool {
    forall|i: int, j: int| 0 <= i < j < s.len() ==> path_loss_of(s[i]) <= path_loss_of(s[j])
}

/// `r` is `s` sorted by path loss, readings of equal path loss in their
/// order in `s`: it holds the same readings, none lost or repeated.
pub open spec fn ranked<T>(s: Seq<Signal<T>>, r: Seq<Signal<T>>) -> bool {
    &&& r.to_multiset() == s.to_multiset()
    &&& ordered_by_loss(r)
    &&& forall|k: int| #[trigger] with_loss(r, k) == with_loss(s, k)
}

proof fn lemma_filter_none<A>(s: Seq<A>, pred: spec_fn(A) -> bool)
    requires
        forall|i: int| 0 <= i < s.len() ==> !pred(s[i]),
    ensures
        s.filter(pred) == Seq::<A>::empty(),
    decreases s.len(),
{
    reveal(Seq::filter);
    if s.len() > 0 {
        lemma_filter_none(s.drop_last(), pred);
    }
}

proof fn lemma_filter_push<A>(s: Seq<A>, x: A, pred: spec_fn(A) -> bool)
    ensures
        s.push(x).filter(pred) == if pred(x) {
            s.filter(pred).push(x)
        } else {
            s.filter(pred)
        },
{
    reveal(Seq::filter);
    assert(s.push(x).drop_last() == s);
}

/// The readings of equal path loss in `s + t` are those of `s` and then
/// those of `t`.
proof fn lemma_with_loss_add<T>(s: Seq<Signal<T>>, t: Seq<Signal<T>>, k: int)
    ensures
        with_loss(s + t, k) == with_loss(s, k) + with_loss(t, k),
{
    Seq::filter_distributes_over_add(s, t, |x: Signal<T>| path_loss_of(x) == k);
}

/// Inserting a reading after every reading of lower or equal path loss and
/// before every reading of higher path loss keeps a ranking.
proof fn lemma_rank_insert<T>(s: Seq<Signal<T>>, r: Seq<Signal<T>>, x: Signal<T>, pos: int)
    requires
        ranked(s, r),
        0 <= pos <= r.len(),
        forall|j: int| 0 <= j < pos ==> path_loss_of(#[trigger] r[j]) <= path_loss_of(x),
        forall|j: int| pos <= j < r.len() ==> path_loss_of(x) < path_loss_of(#[trigger] r[j]),
    ensures
        ranked(s.push(x), r.insert(pos, x)),
{
    let a = r.subrange(0, pos);
    let b = r.subrange(pos, r.len() as int);
    let r2 = r.insert(pos, x);
    to_multiset_insert(r, pos, x);
    to_multiset_build(s, x);
    assert(r == a + b);
    assert(r2 == a + seq![x] + b);
    assert forall|i: int, j: int| 0 <= i < j < r2.len() implies path_loss_of(r2[i])
        <= path_loss_of(r2[j]) by {
        if j < pos {
            assert(r2[i] == r[i] && r2[j] == r[j]);
        } else if j == pos {
            assert(r2[i] == r[i]);
        } else if i < pos {
            assert(r2[i] == r[i] && r2[j] == r[j - 1]);
        } else if i == pos {
            assert(r2[j] == r[j - 1]);
        } else {
            assert(r2[i] == r[i - 1] && r2[j] == r[j - 1]);
        }
    }
    assert forall|k: int| #[trigger] with_loss(r2, k) == with_loss(s.push(x), k) by {
        let pred = |y: Signal<T>| path_loss_of(y) == k;
        lemma_with_loss_add(a + seq![x], b, k);
        lemma_with_loss_add(a, seq![x], k);
        lemma_with_loss_add(a, b, k);
        lemma_filter_push(s, x, pred);
        lemma_filter_push(Seq::<Signal<T>>::empty(), x, pred);
        assert(Seq::<Signal<T>>::empty().push(x) == seq![x]);
        lemma_filter_none(Seq::<Signal<T>>::empty(), pred);
        if path_loss_of(x) == k {
            lemma_filter_none(b, pred);
        }
        assert(with_loss(r, k) == with_loss(s, k));
    }
}

/// The first reading of a ranking is one of least path loss in the batch, so
/// it comes from the nearest beacon, and a ranking of a non-empty batch is
/// not empty.
pub proof fn lemma_nearest_first<T>(s: Seq<Signal<T>>, r: Seq<Signal<T>>)
    requires
        ranked(s, r),
        s.len() > 0,
    ensures
        r.len() > 0,
        forall|j: int| 0 <= j < s.len() ==> path_loss_of(r[0]) <= path_loss_of(#[trigger] s[j]),
        forall|j: int| 0 <= j < r.len() ==> path_loss_of(r[0]) <= path_loss_of(#[trigger] r[j]),
{
    assert forall|j: int| 0 <= j < s.len() implies r.len() > 0 && path_loss_of(r[0])
        <= path_loss_of(#[trigger] s[j]) by {
        let k = path_loss_of(s[j]);
        let pred = |x: Signal<T>| path_loss_of(x) == k;
        s.lemma_filter_contains(pred, j);
        assert(with_loss(r, k) == with_loss(s, k));
        assert(with_loss(r, k).len() > 0);
        r.lemma_filter_pred(pred, 0);
        assert(r.filter(pred).contains(r.filter(pred)[0]));
        r.lemma_filter_contains_rev(pred, r.filter(pred)[0]);
        let t = choose|t: int| 0 <= t < r.len() && r[t] == r.filter(pred)[0];
        assert(path_loss_of(r[t]) == k);
        if t > 0 {
            assert(path_loss_of(r[0]) <= path_loss_of(r[t]));
        }
    }
    assert(r.len() > 0) by {
        assert(0 <= 0 < s.len());
        assert(path_loss_of(r[0]) <= path_loss_of(s[0]));
    }
}

/// Sorts readings by path loss, nearest beacon first; readings of equal
/// path loss keep their order.
pub fn order_by_path_loss<T>(signals: Vec<Signal<T>>) -> (r: Vec<Signal<T>>)
    ensures
        ranked(signals@, r@),
{
    let mut rest = signals;
    let ghost input = rest@;
    let mut out: Vec<Signal<T>> = Vec::new();
    let n = rest.len();
    let mut taken: usize = 0;
    proof {
        assert(out@ == input.take(0));
    }
    while rest.len() > 0
        invariant
            n == input.len(),
            taken + rest@.len() == n,
            rest@ == input.subrange(taken as int, n as int),
            ranked(input.take(taken as int), out@),
        decreases rest@.len(),
    {
        let x = rest.remove(0);
        let key = x.path_loss();
        let mut pos: usize = 0;
        while pos < out.len() && out[pos].path_loss() <= key
            invariant
                pos <= out@.len(),
                forall|j: int| 0 <= j < pos ==> path_loss_of(#[trigger] out@[j]) <= key,
            decreases out@.len() - pos,
        {
            pos = pos + 1;
        }
        proof {
            let o = out@;
            assert forall|j: int| pos <= j < o.len() implies key < path_loss_of(#[trigger] o[j]) by {
                assert(path_loss_of(o[pos as int]) > key);
                if j > pos {
                    assert(ordered_by_loss(o));
                }
            }
            assert(x == input[taken as int]);
            assert(input.take(taken + 1) == input.take(taken as int).push(x));
            lemma_rank_insert(input.take(taken as int), o, x, pos as int);
        }
        out.insert(pos, x);
        taken = taken + 1;
    }
    proof {
        assert(input.take(n as int) == input);
    }
    out
}

/// The local positioning strategy's view of the beacon catalog.
pub struct Locator<P> {
    pub catalog: Vec<Beacon<P>>,
}

impl<P: Copy> Locator<P> {
    pub fn new(catalog: Vec<Beacon<P>>) -> (r: Self)
        ensures
            r.catalog == catalog,
    {
        Locator { catalog }
    }

    /// Resolves each reading's identity against the catalog; readings of
    /// unknown beacons are dropped. Order and signal values are kept.
    pub fn resolve_beacons(&self, signals: &Vec<Signal<BeaconId>>) -> (r: Vec<Signal<Beacon<P>>>)
        ensures
            r@ == resolved(self.catalog@, signals@),
    {
        let n = signals.len();
        let mut out: Vec<Signal<Beacon<P>>> = Vec::new();
        let mut i: usize = 0;
        while i < n
            invariant
                i <= n == signals@.len(),
                out@ == resolved(self.catalog@, signals@.take(i as int)),
            decreases n - i,
        {
            let s = &signals[i];
            proof {
                signals@.lemma_filter_map_take_succ(
                    |x: Signal<BeaconId>| resolved_one(self.catalog@, x),
                    i as int,
                );
            }
            match find_beacon_by_id(&self.catalog, s.beacon.uuid.as_str(), s.beacon.major, s.beacon.minor) {
                Some(b) => {
                    out.push(
                        Signal { beacon: b.clone(), tx_power: s.tx_power, rssi: s.rssi, rx_ts: s.rx_ts },
                    );
                },
                None => {},
            }
            i = i + 1;
        }
        assert(signals@.take(n as int) == signals@);
        out
    }

    /// The batch's usable readings, nearest beacon first: resolved against
    /// the catalog and ranked by path loss. Fails with
    /// `InsufficientMeasurements` when no reading resolves.
    pub fn rank_readings(&self, signals: &Vec<Signal<BeaconId>>) -> (r: Result<
        Vec<Signal<Beacon<P>>>,
        PositioningError,
    >)
        ensures
            match r {
                Ok(v) => resolved(self.catalog@, signals@).len() > 0 && ranked(
                    resolved(self.catalog@, signals@),
                    v@,
                ),
                Err(e) => resolved(self.catalog@, signals@).len() == 0 && e
                    == PositioningError::InsufficientMeasurements,
            },
    {
        let found = self.resolve_beacons(signals);
        if found.len() == 0 {
            Err(PositioningError::InsufficientMeasurements)
        } else {
            Ok(order_by_path_loss(found))
        }
    }
}

} // verus!
