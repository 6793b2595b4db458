//! Resource-id allocation from the handshake's base/mask pair.
//!
//! The allocation step is the lowest set bit of the mask; each allocation
//! advances an internal counter by that step and returns `counter | base`.
//! Once the counter reaches the mask the space is exhausted and every
//! further call yields `None` — ids are never reused or wrapped.

use vstd::prelude::*;

verus! {

/// The lowest set bit of `m`.
pub open spec fn low_bit(m: u32) -> u32
    recommends
        m != 0,
{
    m & ((!m + 1) as u32)
}

/// A mask whose set bits form one contiguous run, as the resource-id
/// masks handed out by real servers do: adding the lowest set bit
/// clears the whole run.
pub open spec fn contiguous_mask(m: u32) -> bool
    recommends
        m != 0,
{
    ((m + low_bit(m)) as u64) & (m as u64) == 0
}

/// Mutable cursor over the allocatable id space.
pub struct IdGenerator {
    /// Last allocated counter value; starts at 0 (no id allocated yet).
    pub last: u32,
    /// The resource-id mask: the counter never exceeds it.
    pub max: u32,
    /// The resource-id base, OR-ed into every produced id.
    pub base: u32,
    /// The allocation step: the lowest set bit of the mask.
    pub inc: u32,
}

impl IdGenerator {
    pub open spec fn wf(self) -> bool {
        &&& self.max != 0
        &&& self.inc == low_bit(self.max)
        &&& self.inc != 0
        &&& self.inc & ((self.inc - 1) as u32) == 0
        &&& self.max & ((self.inc - 1) as u32) == 0
        &&& self.last & ((self.inc - 1) as u32) == 0
        &&& self.last <= self.max
    }

    /// The allocatable range is used up; no further id will be produced.
    pub open spec fn spec_exhausted(self) -> bool {
        self.last == self.max
    }

    pub fn new(base: u32, mask: u32) -> (r: IdGenerator)
        requires
            mask != 0,
        ensures
            r.wf(),
            r.base == base,
            r.max == mask,
            r.inc == low_bit(mask),
            r.last == 0,
            !r.spec_exhausted(),
    {
        proof {
            lemma_low_bit(mask);
        }
        assert(mask != 0 ==> !mask < 0xFFFF_FFFFu32) by (bit_vector);
        let step = !mask + 1;
        assert(step == (!mask + 1) as u32);
        proof {
            let y = (low_bit(mask) - 1) as u32;
            assert(0u32 & y == 0) by (bit_vector);
        }
        IdGenerator { last: 0, max: mask, base, inc: mask & step }
    }

    pub fn exhausted(&self) -> (r: bool)
        ensures
            r == self.spec_exhausted(),
    {
        self.last == self.max
    }

    /// Produces the next id, or `None` exactly when the space is exhausted
    /// — never before, and forever after, with the state left unchanged.
    pub fn next(&mut self) -> (r: Option<u32>)
        requires
            old(self).wf(),
        ensures
            final(self).wf(),
            final(self).base == old(self).base,
            final(self).max == old(self).max,
            final(self).inc == old(self).inc,
            r is None <==> old(self).spec_exhausted(),
            old(self).spec_exhausted() ==> *final(self) == *old(self),
            !old(self).spec_exhausted() ==> {
                &&& final(self).last == old(self).last + old(self).inc
                &&& r == Some((final(self).last | final(self).base))
            },
    {
        if self.last == self.max {
            return None;
        }
        proof {
            let l = self.last;
            let m = self.max;
            let i = self.inc;
            assert((l & ((i - 1) as u32)) == 0 && (m & ((i - 1) as u32)) == 0 && (i & ((i - 1)
                as u32)) == 0 && l < m && i != 0 ==> l + i <= m && (((l + i) as u32) & ((i - 1)
                as u32)) == 0) by (bit_vector);
        }
        self.last = self.last + self.inc;
        Some(self.last | self.base)
    }
}

/// Facts about the lowest set bit of a non-zero mask: it is a non-zero
/// power of two, and the mask is aligned to it.
pub proof fn lemma_low_bit(m: u32)
    requires
        m != 0,
    ensures
        low_bit(m) != 0,
        low_bit(m) & ((low_bit(m) - 1) as u32) == 0,
        m & ((low_bit(m) - 1) as u32) == 0,
        low_bit(m) <= m,
{
    assert(low_bit(m) != 0 && low_bit(m) & ((low_bit(m) - 1) as u32) == 0 && m & ((low_bit(m)
        - 1) as u32) == 0 && low_bit(m) <= m) by (bit_vector)
        requires
            m != 0,
    ;
}

/// Law: ids allocated later are strictly larger. By `next`'s contract the
/// counter strictly increases over successive successful calls, stays
/// aligned to the step, and never exceeds the mask; so for a contiguous
/// mask disjoint from the base, successive ids `counter | base` are
/// strictly increasing — and therefore pairwise distinct.
pub proof fn lemma_ids_strictly_increase(base: u32, mask: u32, c1: u32, c2: u32)
    requires
        mask != 0,
        contiguous_mask(mask),
        base & mask == 0,
        c1 & ((low_bit(mask) - 1) as u32) == 0,
        c2 & ((low_bit(mask) - 1) as u32) == 0,
        c1 < c2,
        c2 <= mask,
    ensures
        (c1 | base) < (c2 | base),
{
    assert((c1 | base) < (c2 | base)) by (bit_vector)
        requires
            mask != 0,
            ((mask + low_bit(mask)) as u64) & (mask as u64) == 0,
            base & mask == 0,
            c1 & ((low_bit(mask) - 1) as u32) == 0,
            c2 & ((low_bit(mask) - 1) as u32) == 0,
            c1 < c2,
            c2 <= mask,
    ;
}

/// Law: for generators over one contiguous mask disjoint from the base,
/// an id allocated at a later counter is strictly greater than one
/// allocated earlier — `next`'s contract advances the counter by the
/// step on every successful call, so successive ids of one generator
/// strictly increase and never repeat.
pub proof fn lemma_generator_ids_increase(g1: IdGenerator, g2: IdGenerator)
    requires
        g1.wf(),
        g2.wf(),
        g1.max == g2.max,
        g1.base == g2.base,
        contiguous_mask(g1.max),
        g1.base & g1.max == 0,
        g1.last < g2.last,
    ensures
        (g1.last | g1.base) < (g2.last | g2.base),
{
    lemma_ids_strictly_increase(g1.base, g1.max, g1.last, g2.last);
}

/// Law: every produced id carries all of the base's fixed bits.
pub proof fn lemma_id_carries_base(base: u32, c: u32)
    ensures
        (c | base) & base == base,
{
    assert(((c | base) & base) == base) by (bit_vector);
}

} // verus!
