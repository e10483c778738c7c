//! What holds of any sequence of queue operations: samples leave in the order
//! they were accepted, and a producer that outpaces the consumer saturates the
//! queue.

use crate::queue::{dequeue_model, enqueue_model, CAPACITY};
use vstd::prelude::*;

verus! {

/// One operation on a sample queue.
pub enum QueueOp {
    Enqueue(u16),
    Dequeue,
}

/// The effect of one operation on the contents.
pub open spec fn step_items(items: Seq<u16>, op: QueueOp) -> Seq<u16> {
    match op {
        QueueOp::Enqueue(s) => enqueue_model(items, s),
        QueueOp::Dequeue => dequeue_model(items),
    }
}

/// The contents after `ops`, starting from `items`.
pub open spec fn items_after(items: Seq<u16>, ops: Seq<QueueOp>) -> Seq<u16>
    decreases ops.len(),
{
    if ops.len() == 0 {
        items
    } else {
        step_items(items_after(items, ops.drop_last()), ops.last())
    }
}

/// The samples that `ops` inserted successfully, in insertion order.
pub open spec fn accepted_after(items: Seq<u16>, ops: Seq<QueueOp>) -> Seq<u16>
    decreases ops.len(),
{
    if ops.len() == 0 {
        Seq::empty()
    } else {
        let before = items_after(items, ops.drop_last());
        let acc = accepted_after(items, ops.drop_last());
        match ops.last() {
            QueueOp::Enqueue(s) => if before.len() < CAPACITY {
                acc.push(s)
            } else {
                acc
            },
            QueueOp::Dequeue => acc,
        }
    }
}

/// The samples that `ops` handed to the consumer, in delivery order.
pub open spec fn delivered_after(items: Seq<u16>, ops: Seq<QueueOp>) -> Seq<u16>
    decreases ops.len(),
{
    if ops.len() == 0 {
        Seq::empty()
    } else {
        let before = items_after(items, ops.drop_last());
        let del = delivered_after(items, ops.drop_last());
        match ops.last() {
            QueueOp::Enqueue(_) => del,
            QueueOp::Dequeue => if before.len() > 0 {
                del.push(before[0])
            } else {
                del
            },
        }
    }
}

/// How many insertions `ops` saw refused because the queue was full.
pub open spec fn refused_after(items: Seq<u16>, ops: Seq<QueueOp>) -> nat
    decreases ops.len(),
{
    if ops.len() == 0 {
        0
    } else {
        let before = items_after(items, ops.drop_last());
        let n = refused_after(items, ops.drop_last());
        match ops.last() {
            QueueOp::Enqueue(_) => if before.len() < CAPACITY {
                n
            } else {
                n + 1
            },
            QueueOp::Dequeue => n,
        }
    }
}

/// Samples leave in the order they were accepted: what was queued at the start,
/// followed by every accepted sample, equals what was delivered followed by what
/// is still queued. Starting from an empty queue, the delivered samples are
/// therefore a prefix of the accepted ones.
pub proof fn lemma_fifo_order(items: Seq<u16>, ops: Seq<QueueOp>)
    requires
        items.len() <= CAPACITY,
    ensures
        items + accepted_after(items, ops) == delivered_after(items, ops) + items_after(items, ops),
        items_after(items, ops).len() <= CAPACITY,
        items.len() == 0 ==> delivered_after(items, ops).len() <= accepted_after(items, ops).len()
            && delivered_after(items, ops) == accepted_after(items, ops).subrange(
            0,
            delivered_after(items, ops).len() as int,
        ),
    decreases ops.len(),
{
    if ops.len() > 0 {
        let prev = ops.drop_last();
        lemma_fifo_order(items, prev);
        let q = items_after(items, prev);
        let acc = accepted_after(items, prev);
        let del = delivered_after(items, prev);
        match ops.last() {
            QueueOp::Enqueue(s) => {
                if q.len() < CAPACITY {
                    assert(items + acc.push(s) =~= (del + q).push(s));
                    assert((del + q).push(s) =~= del + q.push(s));
                }
            },
            QueueOp::Dequeue => {
                if q.len() > 0 {
                    assert(del + q =~= del.push(q[0]) + q.drop_first());
                }
            },
        }
    }
    let acc = accepted_after(items, ops);
    let del = delivered_after(items, ops);
    if items.len() == 0 {
        assert(items + acc =~= acc);
        assert(acc.subrange(0, del.len() as int) =~= del);
    }
}

/// `n` insertions of the sample `v`.
pub open spec fn enqueues(v: u16, n: nat) -> Seq<QueueOp> {
    Seq::new(n, |i: int| QueueOp::Enqueue(v))
}

/// `n` removals.
pub open spec fn dequeues(n: nat) -> Seq<QueueOp> {
    Seq::new(n, |i: int| QueueOp::Dequeue)
}

/// One unit of time under sustained load: the producer offers `p` samples,
/// then the consumer takes up to `c`.
pub open spec fn load_round(v: u16, p: nat, c: nat) -> Seq<QueueOp> {
    enqueues(v, p) + dequeues(c)
}

/// `k` consecutive rounds of sustained load.
pub open spec fn load_rounds(v: u16, p: nat, c: nat, k: nat) -> Seq<QueueOp>
    decreases k,
{
    if k == 0 {
        Seq::empty()
    } else {
        load_rounds(v, p, c, (k - 1) as nat) + load_round(v, p, c)
    }
}

proof fn lemma_concat(items: Seq<u16>, a: Seq<QueueOp>, b: Seq<QueueOp>)
    ensures
        items_after(items, a + b) == items_after(items_after(items, a), b),
        refused_after(items, a + b) == refused_after(items, a) + refused_after(
            items_after(items, a),
            b,
        ),
        delivered_after(items, a + b) == delivered_after(items, a) + delivered_after(
            items_after(items, a),
            b,
        ),
    decreases b.len(),
{
    if b.len() == 0 {
        assert(a + b =~= a);
        assert(delivered_after(items, a) + Seq::<u16>::empty() =~= delivered_after(items, a));
    } else {
        lemma_concat(items, a, b.drop_last());
        assert((a + b).drop_last() =~= a + b.drop_last());
        assert((a + b).last() == b.last());
        let d1 = delivered_after(items, a);
        let d2 = delivered_after(items_after(items, a), b.drop_last());
        let q = items_after(items, a + b.drop_last());
        if q.len() > 0 {
            assert((d1 + d2).push(q[0]) =~= d1 + d2.push(q[0]));
        }
    }
}

proof fn lemma_enqueues(items: Seq<u16>, v: u16, n: nat)
    requires
        items.len() <= CAPACITY,
    ensures
        items_after(items, enqueues(v, n)).len() == if items.len() + n < CAPACITY {
            items.len() + n
        } else {
            CAPACITY as nat
        },
        refused_after(items, enqueues(v, n)) == if items.len() + n < CAPACITY {
            0
        } else {
            (items.len() + n - CAPACITY) as nat
        },
        delivered_after(items, enqueues(v, n)).len() == 0,
    decreases n,
{
    if n > 0 {
        lemma_enqueues(items, v, (n - 1) as nat);
        assert(enqueues(v, n).drop_last() =~= enqueues(v, (n - 1) as nat));
    }
}

proof fn lemma_dequeues(items: Seq<u16>, n: nat)
    ensures
        items_after(items, dequeues(n)).len() == if n < items.len() {
            (items.len() - n) as nat
        } else {
            0
        },
        refused_after(items, dequeues(n)) == 0,
        delivered_after(items, dequeues(n)).len() == if n < items.len() {
            n
        } else {
            items.len()
        },
    decreases n,
{
    if n > 0 {
        lemma_dequeues(items, (n - 1) as nat);
        assert(dequeues(n).drop_last() =~= dequeues((n - 1) as nat));
    }
}

proof fn lemma_load_round(items: Seq<u16>, v: u16, p: nat, c: nat)
    requires
        items.len() <= CAPACITY,
        c < p,
        c <= CAPACITY,
    ensures
        items_after(items, load_round(v, p, c)).len() == (if items.len() + p < CAPACITY {
            items.len() + p
        } else {
            CAPACITY as nat
        }) - c,
        refused_after(items, load_round(v, p, c)) == if items.len() + p < CAPACITY {
            0
        } else {
            (items.len() + p - CAPACITY) as nat
        },
        delivered_after(items, load_round(v, p, c)).len() == c,
{
    lemma_concat(items, enqueues(v, p), dequeues(c));
    lemma_enqueues(items, v, p);
    lemma_dequeues(items_after(items, enqueues(v, p)), c);
}

proof fn lemma_load_rounds_bounds(items: Seq<u16>, v: u16, p: nat, c: nat, k: nat)
    requires
        items.len() <= CAPACITY,
        c < p,
        c <= CAPACITY,
    ensures
        items_after(items, load_rounds(v, p, c, k)).len() <= CAPACITY,
        k > 0 ==> items_after(items, load_rounds(v, p, c, k)).len() <= CAPACITY - c,
        items_after(items, load_rounds(v, p, c, k)).len() >= if items.len() + k < CAPACITY - c {
            items.len() + k
        } else {
            (CAPACITY - c) as nat
        },
    decreases k,
{
    if k > 0 {
        let prev = load_rounds(v, p, c, (k - 1) as nat);
        lemma_load_rounds_bounds(items, v, p, c, (k - 1) as nat);
        lemma_concat(items, prev, load_round(v, p, c));
        lemma_load_round(items_after(items, prev), v, p, c);
    }
}

/// Under sustained load, with the producer offering `p` samples per unit of
/// time and the consumer taking `c < p`, the queue saturates within
/// `CAPACITY` rounds and stays saturated: every later round fills it to
/// capacity, refuses exactly `p - c` samples and delivers exactly `c`.
pub proof fn lemma_saturation(items: Seq<u16>, v: u16, p: nat, c: nat, k: nat)
    requires
        items.len() <= CAPACITY,
        c < p,
        c <= CAPACITY,
        k >= CAPACITY,
    ensures
        items_after(items, load_rounds(v, p, c, k)).len() == CAPACITY - c,
        items_after(items, load_rounds(v, p, c, k) + enqueues(v, p)).len() == CAPACITY,
        refused_after(items, load_rounds(v, p, c, k + 1)) == refused_after(
            items,
            load_rounds(v, p, c, k),
        ) + (p - c),
        delivered_after(items, load_rounds(v, p, c, k + 1)).len() == delivered_after(
            items,
            load_rounds(v, p, c, k),
        ).len() + c,
{
    let prev = load_rounds(v, p, c, k);
    lemma_load_rounds_bounds(items, v, p, c, k);
    let q = items_after(items, prev);
    lemma_concat(items, prev, enqueues(v, p));
    lemma_enqueues(q, v, p);
    assert(load_rounds(v, p, c, k + 1) == prev + load_round(v, p, c));
    lemma_concat(items, prev, load_round(v, p, c));
    lemma_load_round(q, v, p, c);
}

} // verus!
