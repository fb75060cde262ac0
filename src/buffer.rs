//! A capacity-bounded buffer of readings, newest first, from which the
//! readings of a trailing time window are taken.

use vstd::prelude::*;

use std::collections::VecDeque;

use crate::signal::{now_micros, same_reading, Signal};

verus! {

/// Length of the trailing window, in microseconds: five seconds.
pub const WINDOW_MICROS: i64 = 5_000_000;

/// A reading received at `ts` lies in the window that ends at `now`.
pub open spec fn in_window(ts: i64, now: i64) -> bool {
    now - WINDOW_MICROS < ts
}

/// The readings of `s` that lie in the window ending at `now`, in order.
pub open spec fn window<T>(s: Seq<Signal<T>>, now: i64) -> Seq<Signal<T>> {
    s.filter(|x: Signal<T>| in_window(x.rx_ts, now))
}

/// What `push` leaves: the new reading in front, and the oldest reading
/// dropped when the buffer was full. A buffer of capacity zero stays empty.
pub open spec fn pushed<T>(s: Seq<Signal<T>>, max_size: nat, x: Signal<T>) -> Seq<Signal<T>> {
    if max_size == 0 {
        s
    } else if s.len() >= max_size {
        seq![x] + s.drop_last()
    } else {
        seq![x] + s
    }
}

/// The contents left by pushing the readings of `xs`, first to last, onto
/// contents `s` of a buffer with capacity `cap`.
pub open spec fn after_pushes<T>(s: Seq<Signal<T>>, cap: nat, xs: Seq<Signal<T>>) -> Seq<Signal<T>>
    decreases xs.len(),
{
    if xs.len() == 0 {
        s
    } else {
        pushed(after_pushes(s, cap, xs.drop_last()), cap, xs.last())
    }
}

/// The last `m` readings of `xs`, newest first.
pub open spec fn newest<T>(xs: Seq<Signal<T>>, m: int) -> Seq<Signal<T>> {
    xs.subrange(xs.len() - m, xs.len() as int).reverse()
}

proof fn lemma_newest_index<T>(xs: Seq<Signal<T>>, m: int)
    requires
        0 <= m <= xs.len(),
    ensures
        newest(xs, m).len() == m,
        forall|i: int| 0 <= i < m ==> #[trigger] newest(xs, m)[i] == xs[xs.len() - 1 - i],
{
}

/// A buffer of capacity `cap` that is filled from empty holds the last `cap`
/// readings pushed (all of them, when fewer were pushed), newest first: once
/// it is full, each push drops the oldest reading.
pub proof fn lemma_fifo_eviction<T>(xs: Seq<Signal<T>>, cap: nat)
    ensures
        after_pushes(Seq::empty(), cap, xs) == newest(
            xs,
            if cap < xs.len() {
                cap as int
            } else {
                xs.len() as int
            },
        ),
    decreases xs.len(),
{
    if xs.len() > 0 {
        let n = xs.len() - 1;
        let init = xs.drop_last();
        lemma_fifo_eviction(init, cap);
        let prev = after_pushes(Seq::empty(), cap, init);
        let m0: int = if cap < n {
            cap as int
        } else {
            n
        };
        let m: int = if cap < xs.len() {
            cap as int
        } else {
            xs.len() as int
        };
        lemma_newest_index(init, m0);
        lemma_newest_index(xs, m);
        let r = pushed(prev, cap, xs.last());
        assert forall|i: int| 0 <= i < m implies r[i] == newest(xs, m)[i] by {
            if i > 0 {
                assert(r[i] == prev[i - 1]);
                assert(init[n - 1 - (i - 1)] == xs[n - i]);
            }
        }
        assert(r =~= newest(xs, m));
    }
}

/// The readings of a window are exactly the buffered readings received in
/// it: every emitted reading is recent and buffered, and every recent
/// buffered reading is emitted.
pub proof fn lemma_window_exact<T>(s: Seq<Signal<T>>, now: i64)
    ensures
        forall|i: int|
            0 <= i < window(s, now).len() ==> in_window(#[trigger] window(s, now)[i].rx_ts, now)
                && s.contains(window(s, now)[i]),
        forall|i: int|
            0 <= i < s.len() && in_window(#[trigger] s[i].rx_ts, now) ==> window(s, now).contains(
                s[i],
            ),
{
    let pred = |x: Signal<T>| in_window(x.rx_ts, now);
    assert forall|i: int| 0 <= i < window(s, now).len() implies in_window(
        #[trigger] window(s, now)[i].rx_ts,
        now,
    ) && s.contains(window(s, now)[i]) by {
        s.lemma_filter_pred(pred, i);
        assert(s.filter(pred).contains(s.filter(pred)[i]));
        s.lemma_filter_contains_rev(pred, s.filter(pred)[i]);
    }
    assert forall|i: int| 0 <= i < s.len() && in_window(#[trigger] s[i].rx_ts, now) implies window(
        s,
        now,
    ).contains(s[i]) by {
        s.lemma_filter_contains(pred, i);
    }
}

pub struct Buffer<T> {
    signals: VecDeque<Signal<T>>,
    max_size: usize,
}

impl<T> View for Buffer<T> {
    type V = Seq<Signal<T>>;

    /// The buffered readings, newest first.
    closed spec fn view(&self) -> Seq<Signal<T>> {
        self.signals@
    }
}

impl<T: Clone> Buffer<T> {
    /// The capacity the buffer was made with.
    pub closed spec fn capacity(&self) -> nat {
        self.max_size as nat
    }

    /// An empty buffer that keeps at most `max_size` readings.
    pub fn new(max_size: usize) -> (r: Self)
        ensures
            r@ == Seq::<Signal<T>>::empty(),
            r.capacity() == max_size,
    {
        Buffer { signals: VecDeque::with_capacity(max_size), max_size }
    }

    /// Stores a reading in front; when the buffer is full, the oldest
    /// reading is dropped first. A buffer of capacity zero keeps nothing.
    pub fn push(&mut self, signal: Signal<T>)
        ensures
            final(self)@ == pushed(old(self)@, old(self).capacity(), signal),
            final(self).capacity() == old(self).capacity(),
            old(self)@.len() <= old(self).capacity() ==> final(self)@.len() <= final(self).capacity(),
    {
        if self.max_size == 0 {
            return;
        }
        if self.signals.len() >= self.max_size {
            self.signals.pop_back();
        }
        self.signals.push_front(signal);
    }

    /// The buffered readings received in the five seconds before `now`,
    /// newest first. Older readings stay in the buffer.
    pub fn recent_signals_at(&self, now: i64) -> (r: Vec<Signal<T>>)
        ensures
            r@.len() == window(self@, now).len(),
            forall|i: int| 0 <= i < r@.len() ==> same_reading(window(self@, now)[i], #[trigger] r@[i]),
    {
        let n = self.signals.len();
        let mut out: Vec<Signal<T>> = Vec::new();
        let mut i: usize = 0;
        while i < n
            invariant
                i <= n == self.signals@.len(),
                out@.len() == window(self.signals@.take(i as int), now).len(),
                forall|j: int|
                    0 <= j < out@.len() ==> same_reading(
                        window(self.signals@.take(i as int), now)[j],
                        #[trigger] out@[j],
                    ),
            decreases n - i,
        {
            let s = &self.signals[i];
            proof {
                reveal(Seq::filter);
                assert(self.signals@.take(i + 1).drop_last() == self.signals@.take(i as int));
            }
            let keep = if now < i64::MIN + WINDOW_MICROS {
                true
            } else {
                s.rx_ts > now - WINDOW_MICROS
            };
            if keep {
                out.push(s.clone());
            }
            i = i + 1;
        }
        assert(self.signals@.take(n as int) == self.signals@);
        out
    }

    /// The buffered readings received in the five seconds before the current
    /// time, newest first.
    pub fn get_recent_signals(&self) -> (r: Vec<Signal<T>>)
        ensures
            exists|now: i64|
                r@.len() == window(self@, now).len() && forall|i: int|
                    0 <= i < r@.len() ==> same_reading(window(self@, now)[i], #[trigger] r@[i]),
    {
        self.recent_signals_at(now_micros())
    }
}

} // verus!
