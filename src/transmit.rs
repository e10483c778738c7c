//! The transmission side: each sample is sent alone, as its decimal digits in
//! ASCII with no delimiter or framing.

use crate::queue::{dequeue_model, SampleQueue};
use vstd::prelude::*;

verus! {

/// The ASCII decimal representation of `n`, most significant digit first, with
/// no leading zeros (zero itself is the single digit `0`).
pub open spec fn decimal_digits(n: nat) -> Seq<u8>
    decreases n,
{
    if n < 10 {
        seq![(48 + n) as u8]
    } else {
        decimal_digits(n / 10).push((48 + n % 10) as u8)
    }
}

/// The bytes sent for one sample.
pub fn render_payload(sample: u16) -> (r: Vec<u8>)
    ensures
        r@ == decimal_digits(sample as nat),
    decreases sample,
{
    if sample < 10 {
        vec![48 + sample as u8]
    } else {
        let mut digits = render_payload(sample / 10);
        digits.push(48 + (sample % 10) as u8);
        digits
    }
}

/// One pass of the transmission loop over the queue: when a sample is waiting,
/// take the oldest and return the payload to send for it; otherwise leave the
/// queue alone and return `None`.
pub fn next_payload(queue: &mut SampleQueue) -> (r: Option<Vec<u8>>)
    requires
        old(queue).wf(),
    ensures
        final(queue).wf(),
        final(queue)@ == dequeue_model(old(queue)@),
        final(queue).drop_count() == old(queue).drop_count(),
        old(queue)@.len() == 0 ==> r.is_none(),
        old(queue)@.len() > 0 ==> r.is_some() && r.unwrap()@ == decimal_digits(
            old(queue)@[0] as nat,
        ),
{
    if queue.is_empty() {
        return None;
    }
    match queue.try_dequeue() {
        Some(sample) => Some(render_payload(sample)),
        None => None,
    }
}

} // verus!
