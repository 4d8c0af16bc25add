//! The log record buffer: an ordered store of diagnostic records, filled by
//! appends and emptied by call-scoped drains.
//!
//! Records carry logical stamps handed out by the buffer itself, one past the
//! other, so insertion order and stamp order coincide.  A drain takes a window
//! start — the stamp counter read when the call began — and atomically removes
//! and renders every record stamped at or after it.  Records stamped before
//! the window stay behind for the drain whose window covers them.

use vstd::prelude::*;
use vstd::string::*;

use crate::record::{render_all, LogLevel, LogRecord};

verus! {

/// Stamps strictly increase left to right.
pub open spec fn stamps_increasing(s: Seq<LogRecord>) -> bool {
    forall|i: int, j: int| 0 <= i < j < s.len() ==> s[i].stamp < s[j].stamp
}

/// The records a drain with window start `w` leaves behind.
pub open spec fn kept_after(s: Seq<LogRecord>, w: u64) -> Seq<LogRecord> {
    s.filter(|r: LogRecord| r.stamp < w)
}

/// The records a drain with window start `w` removes and returns.
pub open spec fn drained_from(s: Seq<LogRecord>, w: u64) -> Seq<LogRecord> {
    s.filter(|r: LogRecord| r.stamp >= w)
}

pub struct LogBuffer {
    pub records: Vec<LogRecord>,
    pub next_stamp: u64,
}

impl LogBuffer {
    /// Well-formed: stamps strictly increase and stay below the counter.
    pub open spec fn wf(self) -> bool {
        &&& stamps_increasing(self.records@)
        &&& forall|i: int| 0 <= i < self.records@.len() ==> self.records@[i].stamp < self.next_stamp
    }

    pub fn new() -> (b: LogBuffer)
        ensures
            b.wf(),
            b.records@ == Seq::<LogRecord>::empty(),
            b.next_stamp == 0,
    {
        LogBuffer { records: Vec::new(), next_stamp: 0 }
    }

    /// The stamp the next record will get; a call captures it as its window
    /// start before invoking the engine.
    pub fn window_start(&self) -> (w: u64)
        ensures
            w == self.next_stamp,
    {
        self.next_stamp
    }

    /// Appends one record, stamped with the current counter.  Once the
    /// counter is exhausted further records are dropped rather than
    /// stamped out of order.
    pub fn record(&mut self, level: LogLevel, target: String, message: String)
        requires
            old(self).wf(),
        ensures
            final(self).wf(),
            old(self).next_stamp < u64::MAX ==> {
                &&& final(self).records@ == old(self).records@.push(
                    (LogRecord { stamp: old(self).next_stamp, level, target, message }),
                )
                &&& final(self).next_stamp == old(self).next_stamp + 1
            },
            old(self).next_stamp == u64::MAX ==> *final(self) == *old(self),
    {
        if self.next_stamp < u64::MAX {
            let stamp = self.next_stamp;
            self.records.push(LogRecord { stamp, level, target, message });
            self.next_stamp = stamp + 1;
        }
    }

    /// Atomically removes every record stamped at or after `w` and renders
    /// them, oldest first, as newline-joined log lines.  Records from before
    /// the window stay buffered: a later drain with a window start at or
    /// below their stamps still sweeps them up.
    pub fn drain_since(&mut self, w: u64) -> (text: String)
        requires
            old(self).wf(),
        ensures
            final(self).wf(),
            final(self).next_stamp == old(self).next_stamp,
            final(self).records@ == kept_after(old(self).records@, w),
            text@ == render_all(drained_from(old(self).records@, w)),
    {
        let n = self.records.len();
        let mut k: usize = 0;
        while k < n && self.records[k].stamp < w
            invariant
                0 <= k <= n,
                n == self.records@.len(),
                forall|i: int| 0 <= i < k ==> self.records@[i].stamp < w,
                *self == *old(self),
            decreases n - k,
        {
            k += 1;
        }
        proof {
            assert(forall|i: int| k <= i < n ==> self.records@[i].stamp >= w) by {
                if k < n {
                    assert(self.records@[k as int].stamp >= w);
                }
            }
            lemma_sorted_split(self.records@, w, k as int);
        }
        let mut text = String::new();
        let mut j: usize = k;
        while j < n
            invariant
                k <= j <= n,
                n == self.records@.len(),
                *self == *old(self),
                text@ == render_all(self.records@.subrange(k as int, j as int)),
            decreases n - j,
        {
            proof {
                assert(self.records@.subrange(k as int, j as int + 1).drop_last() =~= self
                    .records@.subrange(k as int, j as int));
                assert(self.records@.subrange(k as int, j as int + 1).last() == self.records@[
                    j as int]);
            }
            if j > k {
                text.append("\n");
            }
            let line = crate::record::render_line(&self.records[j]);
            text.append(line.as_str());
            j += 1;
        }
        proof {
            assert(self.records@.subrange(k as int, n as int) == drained_from(
                self.records@,
                w,
            ));
        }
        self.records.truncate(k);
        text
    }
}

/// If everything before position `k` is stamped below `w` and everything from
/// `k` on is stamped at or after it, the kept and drained parts of a drain
/// are exactly the prefix and suffix at `k`.
pub proof fn lemma_sorted_split(s: Seq<LogRecord>, w: u64, k: int)
    requires
        0 <= k <= s.len(),
        forall|i: int| 0 <= i < k ==> s[i].stamp < w,
        forall|i: int| k <= i < s.len() ==> s[i].stamp >= w,
    ensures
        kept_after(s, w) == s.subrange(0, k),
        drained_from(s, w) == s.subrange(k, s.len() as int),
    decreases s.len(),
{
    reveal(Seq::filter);
    if s.len() == 0 {
        assert(kept_after(s, w) =~= s.subrange(0, k));
        assert(drained_from(s, w) =~= s.subrange(k, s.len() as int));
    } else {
        let s1 = s.drop_last();
        if k == s.len() {
            lemma_sorted_split(s1, w, k - 1);
            assert(kept_after(s, w) =~= s.subrange(0, k));
            assert(drained_from(s, w) =~= s.subrange(k, s.len() as int));
        } else {
            lemma_sorted_split(s1, w, k);
            assert(kept_after(s, w) =~= s.subrange(0, k));
            assert(drained_from(s, w) =~= s.subrange(k, s.len() as int));
        }
    }
}

/// Every record a filter keeps was in the source sequence.
proof fn lemma_filter_is_subset(s: Seq<LogRecord>, pred: spec_fn(LogRecord) -> bool)
    ensures
        forall|i: int|
            0 <= i < s.filter(pred).len() ==> s.contains(#[trigger] s.filter(pred)[i]),
    decreases s.len(),
{
    reveal(Seq::filter);
    if s.len() > 0 {
        let s1 = s.drop_last();
        lemma_filter_is_subset(s1, pred);
        assert forall|i: int| 0 <= i < s.filter(pred).len() implies s.contains(
            #[trigger] s.filter(pred)[i],
        ) by {
            let f = s.filter(pred);
            let f1 = s1.filter(pred);
            if i < f1.len() {
                assert(f[i] == f1[i]);
                let j = choose|j: int| 0 <= j < s1.len() && s1[j] == f1[i];
                assert(s[j] == f1[i]);
            } else {
                assert(f[i] == s.last());
            }
        }
    }
}

/// A filter keeps the records' relative order, so a batch drained out of a
/// well-formed buffer is still in strictly increasing stamp order.
proof fn lemma_filter_preserves_order(s: Seq<LogRecord>, pred: spec_fn(LogRecord) -> bool)
    requires
        stamps_increasing(s),
    ensures
        stamps_increasing(s.filter(pred)),
    decreases s.len(),
{
    reveal(Seq::filter);
    if s.len() > 0 {
        let s1 = s.drop_last();
        lemma_filter_preserves_order(s1, pred);
        lemma_filter_is_subset(s1, pred);
        let f = s.filter(pred);
        let f1 = s1.filter(pred);
        if pred(s.last()) {
            assert forall|i: int, j: int| 0 <= i < j < f.len() implies f[i].stamp < f[j].stamp by {
                if j < f.len() - 1 {
                    assert(f1[i].stamp < f1[j].stamp);
                } else {
                    assert(f[j] == s.last());
                    if i < f1.len() {
                        assert(s1.contains(f1[i]));
                        let m = choose|m: int| 0 <= m < s1.len() && s1[m] == f1[i];
                        assert(s[m].stamp < s.last().stamp);
                    }
                }
            }
        }
    }
}

/// A drain returns records oldest first: their stamps strictly increase.
pub proof fn lemma_drain_ordered(s: Seq<LogRecord>, w: u64)
    requires
        stamps_increasing(s),
    ensures
        stamps_increasing(drained_from(s, w)),
{
    lemma_filter_preserves_order(s, |r: LogRecord| r.stamp >= w);
}

/// A drain never returns a record twice: whatever window starts the two
/// drains use, everything the first drain returns is stamped at or after its
/// window, while everything a later drain of the remainder returns is stamped
/// before it.
pub proof fn lemma_successive_drains_distinct(s: Seq<LogRecord>, w1: u64, w2: u64)
    ensures
        forall|i: int, j: int|
            0 <= i < drained_from(s, w1).len() && 0 <= j < drained_from(
                kept_after(s, w1),
                w2,
            ).len() ==> #[trigger] drained_from(s, w1)[i].stamp != #[trigger] drained_from(
                kept_after(s, w1),
                w2,
            )[j].stamp,
{
    broadcast use Seq::lemma_filter_pred;

    let first = drained_from(s, w1);
    let kept = kept_after(s, w1);
    let second = drained_from(kept, w2);
    lemma_filter_is_subset(kept, |r: LogRecord| r.stamp >= w2);
    assert forall|i: int, j: int|
        0 <= i < first.len() && 0 <= j < second.len() implies #[trigger] first[i].stamp
        != #[trigger] second[j].stamp by {
        assert(first[i].stamp >= w1);
        assert(kept.contains(second[j]));
        let m = choose|m: int| 0 <= m < kept.len() && kept[m] == second[j];
        assert(kept[m].stamp < w1);
    }
}

/// A drain splits the buffer: together, the kept and the drained records are
/// exactly the records that were buffered, none lost and none invented.
pub proof fn lemma_drain_splits(s: Seq<LogRecord>, w: u64)
    ensures
        kept_after(s, w).to_multiset().add(drained_from(s, w).to_multiset()) == s.to_multiset(),
    decreases s.len(),
{
    broadcast use vstd::seq_lib::to_multiset_build;
    broadcast use vstd::multiset::group_multiset_axioms;

    reveal(Seq::filter);
    if s.len() == 0 {
        s.to_multiset_ensures();
        assert(kept_after(s, w) =~= Seq::<LogRecord>::empty());
        assert(drained_from(s, w) =~= Seq::<LogRecord>::empty());
        assert(kept_after(s, w).to_multiset().add(drained_from(s, w).to_multiset())
            =~= s.to_multiset());
    } else {
        let s1 = s.drop_last();
        let x = s.last();
        lemma_drain_splits(s1, w);
        assert(s1.push(x) =~= s);
        assert(s1.push(x).to_multiset() =~= s1.to_multiset().insert(x));
        if x.stamp < w {
            assert(kept_after(s, w) == kept_after(s1, w).push(x));
            assert(kept_after(s1, w).push(x).to_multiset() =~= kept_after(
                s1,
                w,
            ).to_multiset().insert(x));
            assert(kept_after(s, w).to_multiset().add(drained_from(s, w).to_multiset())
                =~= s.to_multiset());
        } else {
            assert(drained_from(s, w) == drained_from(s1, w).push(x));
            assert(drained_from(s1, w).push(x).to_multiset() =~= drained_from(
                s1,
                w,
            ).to_multiset().insert(x));
            assert(kept_after(s, w).to_multiset().add(drained_from(s, w).to_multiset())
                =~= s.to_multiset());
        }
    }
}

/// If every record satisfies the window, a drain returns the whole buffer.
proof fn lemma_filter_all(s: Seq<LogRecord>, pred: spec_fn(LogRecord) -> bool)
    requires
        forall|i: int| 0 <= i < s.len() ==> pred(s[i]),
    ensures
        s.filter(pred) == s,
    decreases s.len(),
{
    reveal(Seq::filter);
    if s.len() > 0 {
        lemma_filter_all(s.drop_last(), pred);
        assert(s.filter(pred) =~= s);
    } else {
        assert(s.filter(pred) =~= s);
    }
}

/// Two overlapping calls lose nothing: if both windows opened at or before
/// every buffered record's stamp, then the drain of the later window followed
/// by the drain of the earlier one returns, between them, exactly the records
/// that were buffered.
pub proof fn lemma_overlapping_drains_lose_nothing(s: Seq<LogRecord>, w1: u64, w2: u64)
    requires
        w1 <= w2,
        forall|i: int| 0 <= i < s.len() ==> w1 <= s[i].stamp,
    ensures
        drained_from(s, w2).to_multiset().add(drained_from(kept_after(s, w2), w1).to_multiset())
            == s.to_multiset(),
{
    broadcast use Seq::lemma_filter_pred;

    let kept = kept_after(s, w2);
    lemma_drain_splits(s, w2);
    lemma_filter_is_subset(s, |r: LogRecord| r.stamp < w2);
    assert forall|i: int| 0 <= i < kept.len() implies w1 <= #[trigger] kept[i].stamp by {
        assert(s.contains(kept[i]));
        let m = choose|m: int| 0 <= m < s.len() && s[m] == kept[i];
    }
    lemma_filter_all(kept, |r: LogRecord| r.stamp >= w1);
    assert(drained_from(kept, w1) == kept);
    assert(drained_from(s, w2).to_multiset().add(kept.to_multiset()) =~= kept.to_multiset().add(
        drained_from(s, w2).to_multiset(),
    ));
}

} // verus!
