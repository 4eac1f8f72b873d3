//! Double-buffered cursor-shape storage with change detection.
//!
//! Shape updates are rare, so instead of copying on every frame the
//! manager keeps two buffers and swaps them: a fresh shape is written
//! into the spare buffer, compared against the shape delivered last time,
//! and then made current with one swap. Two shapes count as different
//! when their sizes differ or their bytes differ.

use vstd::prelude::*;
use vstd::slice::slice_index_get;

verus! {

/// Compare the first `a_len` bytes of `a` with the first `b_len` bytes of
/// `b`.
fn shape_bytes_equal(a: &[u8], a_len: usize, b: &[u8], b_len: usize) -> (r: bool)
    requires
        a_len <= a@.len(),
        b_len <= b@.len(),
    ensures
        r <==> a@.subrange(0, a_len as int) == b@.subrange(0, b_len as int),
{
    if a_len != b_len {
        proof {
            assert(a@.subrange(0, a_len as int).len() != b@.subrange(0, b_len as int).len());
        }
        return false;
    }
    let mut i: usize = 0;
    while i < a_len
        invariant
            i <= a_len,
            a_len == b_len,
            a_len <= a@.len(),
            b_len <= b@.len(),
            forall|k: int| 0 <= k < i ==> a@[k] == b@[k],
        decreases a_len - i,
    {
        let x = *slice_index_get(a, i);
        let y = *slice_index_get(b, i);
        if x != y {
            proof {
                let j = i as int;
                assert(a@.subrange(0, a_len as int)[j] != b@.subrange(0, b_len as int)[j]);
            }
            return false;
        }
        i = i + 1;
    }
    proof {
        assert(a@.subrange(0, a_len as int) =~= b@.subrange(0, b_len as int));
    }
    true
}

/// Two-slot cursor-shape storage: the shape delivered by the latest frame
/// and the one before it, each with its recorded byte size.
#[derive(Debug)]
pub struct PointerShapeManager {
    /// The most recently committed shape's bytes (its first
    /// `current_size` bytes).
    pub current: Vec<u8>,
    /// How many bytes of `current` belong to the shape.
    pub current_size: usize,
    /// The spare buffer: the previously committed shape, and the target
    /// the next shape is written into before [`Self::commit`].
    pub spare: Vec<u8>,
    /// How many bytes of `spare` belong to the previous shape.
    pub spare_size: usize,
}

impl PointerShapeManager {
    /// Recorded sizes never exceed their buffers.
    pub open spec fn wf(&self) -> bool {
        self.current_size <= self.current@.len() && self.spare_size <= self.spare@.len()
    }

    /// The bytes of the most recently committed shape.
    pub open spec fn spec_current_shape(&self) -> Seq<u8> {
        self.current@.subrange(0, self.current_size as int)
    }

    /// The bytes of the shape committed before the current one.
    pub open spec fn spec_previous_shape(&self) -> Seq<u8> {
        self.spare@.subrange(0, self.spare_size as int)
    }

    /// An empty manager: no shape seen yet.
    pub fn new() -> (r: Self)
        ensures
            r.wf(),
            r.spec_current_shape() == Seq::<u8>::empty(),
            r.spec_previous_shape() == Seq::<u8>::empty(),
    {
        PointerShapeManager { current: Vec::new(), current_size: 0, spare: Vec::new(), spare_size: 0 }
    }

    /// Grow the spare buffer so the next shape of `size` bytes fits. The
    /// buffer never shrinks; a smaller request leaves it untouched, so
    /// over the manager's life it only grows, to the largest shape seen.
    pub fn prepare(&mut self, size: u32)
        requires
            old(self).wf(),
        ensures
            final(self).wf(),
            final(self).current == old(self).current,
            final(self).current_size == old(self).current_size,
            final(self).spare_size == old(self).spare_size,
            final(self).spare@.len() >= old(self).spare@.len(),
            final(self).spare@.len() >= size,
            final(self).spec_previous_shape() == old(self).spec_previous_shape(),
    {
        let size = size as usize;
        if self.spare.len() < size {
            proof {
                assert(old(self).spare@.subrange(0, old(self).spare_size as int) =~= old(
                    self,
                ).spare@.subrange(0, old(self).spare_size as int));
            }
            self.spare.resize(size, 0);
            proof {
                assert(self.spare@.subrange(0, self.spare_size as int) =~= old(
                    self,
                ).spare@.subrange(0, old(self).spare_size as int));
            }
        }
    }

    /// Make the shape just written into the spare buffer (its first
    /// `size` bytes) the current one, retiring the old current shape to
    /// the spare slot by one swap. Returns whether the new shape differs
    /// from the one it replaces: different size, or different bytes.
    pub fn commit(&mut self, size: u32) -> (changed: bool)
        requires
            old(self).wf(),
            size <= old(self).spare@.len(),
        ensures
            final(self).wf(),
            final(self).current == old(self).spare,
            final(self).spare == old(self).current,
            final(self).current_size == size,
            final(self).spare_size == old(self).current_size,
            final(self).spec_current_shape() == old(self).spare@.subrange(0, size as int),
            final(self).spec_previous_shape() == old(self).spec_current_shape(),
            changed <==> final(self).spec_current_shape() != old(self).spec_current_shape(),
    {
        let changed = !shape_bytes_equal(
            self.spare.as_slice(),
            size as usize,
            self.current.as_slice(),
            self.current_size,
        );
        core::mem::swap(&mut self.current, &mut self.spare);
        self.spare_size = self.current_size;
        self.current_size = size as usize;
        changed
    }

    /// The most recently committed shape's bytes.
    pub fn current_shape(&self) -> (r: &[u8])
        requires
            self.wf(),
        ensures
            r@ == self.spec_current_shape(),
    {
        vstd::slice::slice_subrange(self.current.as_slice(), 0, self.current_size)
    }
}

} // verus!
