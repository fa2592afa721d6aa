//! The stream compositor: feeds transcoded chunks into one contiguous pixel
//! buffer and computes the trailing zero padding that fills the raster to
//! exactly `dimension^2 * bytes_per_pixel` bytes.
//!
//! The buffer's length is the write cursor: the running count of pixel bytes
//! emitted so far. Should the sources yield more bytes than the plan's
//! capacity (a source grown after planning), the padding saturates at zero and
//! the excess bytes stay in the buffer.

use vstd::prelude::*;
use crate::planner::TranscodePlan;
use crate::transcode::spec_transcode;
use crate::transcode::transcode;

verus! {

/// A sequence of `n` zero bytes (empty for negative `n`).
pub open spec fn zeros(n: int) -> Seq<u8> {
    Seq::new(
        if n < 0 {
            0
        } else {
            n
        } as nat,
        |i: int| 0u8,
    )
}

/// `p` followed by exactly enough zero bytes to reach `cap` (or `p` alone if
/// it is already at least that long).
pub open spec fn padded(p: Seq<u8>, cap: int) -> Seq<u8> {
    p + zeros(cap - p.len())
}

/// Mutable state of one transcoding run: the plan, fixed at construction, and
/// the pixel bytes emitted so far.
pub struct Compositor {
    pub plan: TranscodePlan,
    pub pixels: Vec<u8>,
}

impl Compositor {
    pub fn new(plan: TranscodePlan) -> (c: Self)
        ensures
            c.plan == plan,
            c.pixels@ == Seq::<u8>::empty(),
    {
        Compositor { plan, pixels: Vec::new() }
    }

    /// Transcodes one chunk of raw source bytes for the plan's mode and
    /// appends the result to the pixel buffer. The plan never changes.
    pub fn push_chunk(&mut self, chunk: Vec<u8>)
        ensures
            final(self).plan == old(self).plan,
            final(self).pixels@ == old(self).pixels@ + spec_transcode(
                old(self).plan.color_mode,
                chunk@,
            ),
    {
        let mut t = transcode(chunk, self.plan.color_mode);
        self.pixels.append(&mut t);
    }

    /// The write cursor: pixel bytes emitted so far.
    pub fn written(&self) -> (r: usize)
        ensures
            r == self.pixels@.len(),
    {
        self.pixels.len()
    }

    /// The plan's pixel capacity, `dimension^2 * bytes_per_pixel`.
    pub fn capacity_of(plan: &TranscodePlan) -> (r: u128)
        ensures
            r as int == plan.capacity(),
    {
        let d: u128 = plan.dimension as u128;
        let b: u128 = plan.bytes_per_pixel as u128;
        proof {
            assert(d * d <= u128::MAX && (d * d) * b <= u128::MAX) by (nonlinear_arith)
                requires
                    d <= u32::MAX,
                    b <= u32::MAX,
            ;
        }
        d * d * b
    }

    /// How many zero bytes of padding the run still owes: the capacity minus
    /// the cursor, saturating at zero.
    pub fn padding_len(&self) -> (r: u128)
        ensures
            r as int == if self.pixels@.len() <= self.plan.capacity() {
                self.plan.capacity() - self.pixels@.len()
            } else {
                0
            },
    {
        let cap = Self::capacity_of(&self.plan);
        let len = self.pixels.len() as u128;
        if len <= cap {
            cap - len
        } else {
            0
        }
    }

    /// Appends the trailing zero padding and yields the finished pixel
    /// buffer: exactly the bytes emitted so far, filled with zeros up to the
    /// plan's capacity.
    pub fn into_pixels(self) -> (r: Vec<u8>)
        requires
            self.plan.capacity() <= usize::MAX,
        ensures
            r@ == padded(self.pixels@, self.plan.capacity()),
    {
        let ghost before = self.pixels@;
        let ghost cap = self.plan.capacity();
        let pad128 = self.padding_len();
        let mut px = self.pixels;
        let pad = pad128 as usize;
        let mut i: usize = 0;
        while i < pad
            invariant
                i <= pad,
                px@ == before + zeros(i as int),
            decreases pad - i,
        {
            px.push(0);
            proof {
                assert((before + zeros(i as int)).push(0u8) =~= before + zeros(i + 1));
            }
            i = i + 1;
        }
        proof {
            assert(px@ =~= padded(before, cap));
        }
        px
    }
}

/// The padding law: when the emitted pixel bytes do not exceed the capacity,
/// the padded buffer is exactly `cap` bytes long, begins with the pixel bytes
/// unchanged, and ends with zero bytes only.
pub proof fn lemma_padding_law(p: Seq<u8>, cap: int)
    requires
        0 <= p.len() <= cap,
    ensures
        padded(p, cap).len() == cap,
        forall|i: int| 0 <= i < p.len() ==> padded(p, cap)[i] == p[i],
        forall|i: int| p.len() <= i < cap ==> padded(p, cap)[i] == 0,
{
}

} // verus!
