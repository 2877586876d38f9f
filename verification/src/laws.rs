//! Guarantees that span several operations of the segment table, stated and
//! proved once over the transition relations that the instruction contracts
//! use.

use vstd::prelude::*;

use crate::instructions::alloc_rel;
use crate::instructions::seg_load_rel;
use crate::instructions::seg_store_ok;
use crate::instructions::seg_store_rel;
use crate::instructions::unmap_rel;
use crate::um::UniversalMachine;

verus! {

/// Two consecutive allocations without an intervening deallocation return
/// distinct handles: the first handle is live while the second is chosen, and
/// an allocation never returns a live handle.
pub proof fn lemma_allocate_unique(
    m0: UniversalMachine,
    m1: UniversalMachine,
    m2: UniversalMachine,
    b1: int,
    c1: int,
    b2: int,
    c2: int,
)
    requires
        m0.wf(),
        0 <= b1 < 8,
        0 <= b2 < 8,
        alloc_rel(m0, m1, b1, c1),
        alloc_rel(m1, m2, b2, c2),
    ensures
        m1.registers@[b1] != m2.registers@[b2],
{
    assert(m1.live(m1.registers@[b1]));
    assert(!m1.live(m2.registers@[b2]));
}

/// Deallocating a handle and then allocating returns that same handle, and
/// the segment installed under it is all-zero and exactly as long as
/// requested.
pub proof fn lemma_deallocate_then_allocate_reuses(
    m0: UniversalMachine,
    m1: UniversalMachine,
    m2: UniversalMachine,
    c1: int,
    b2: int,
    c2: int,
)
    requires
        m0.wf(),
        0 <= c1 < 8,
        0 <= b2 < 8,
        0 <= c2 < 8,
        unmap_rel(m0, m1, c1),
        alloc_rel(m1, m2, b2, c2),
    ensures
        m2.registers@[b2] == m0.registers@[c1],
        m2.mem_segs@[m0.registers@[c1] as int]@.len() == m0.registers@[c2],
        forall|i: int|
            0 <= i < m0.registers@[c2] ==> m2.mem_segs@[m0.registers@[c1] as int]@[i] == 0,
{
    assert(m1.unmap_segs@.len() == m0.unmap_segs@.len() + 1);
    assert(m1.unmap_segs@[m1.unmap_segs@.len() - 1] == m0.registers@[c1]);
}

/// Round trip: a store to a live segment followed by a load of the same cell
/// yields the stored word.
pub proof fn lemma_write_then_read(
    m0: UniversalMachine,
    m1: UniversalMachine,
    m2: UniversalMachine,
    a1: int,
    b1: int,
    c1: int,
    a2: int,
    b2: int,
    c2: int,
)
    requires
        m0.wf(),
        0 <= a1 < 8,
        0 <= b1 < 8,
        0 <= c1 < 8,
        0 <= a2 < 8,
        0 <= b2 < 8,
        0 <= c2 < 8,
        seg_store_ok(m0, a1, b1),
        seg_store_rel(m0, m1, a1, b1, c1),
        m1.registers@[b2] == m0.registers@[a1],
        m1.registers@[c2] == m0.registers@[b1],
        seg_load_rel(m1, m2, a2, b2, c2),
    ensures
        m2.registers@[a2] == m0.registers@[c1],
{
    let h = m0.registers@[a1];
    let off = m0.registers@[b1];
    assert(m1.mem_segs@[h as int]@[off as int] == m0.registers@[c1]);
}

} // verus!
