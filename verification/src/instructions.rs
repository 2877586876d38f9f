//! The opcode handlers. Each takes the machine and the decoded register
//! operand indices (always below 8) and either performs its effect on the
//! state or reports the fault that the operands provoke; none of them touches
//! the console or the process.

use vstd::prelude::*;

use crate::parser::Field;
use crate::parser::spec_field;
use crate::um::Fault;
use crate::um::UniversalMachine;
use crate::um::segments_unchanged;
use vstd::pervasive::VecAdditionalExecFns;

verus! {

/// Register file after a conditional move: `R[A] := R[B]` exactly when
/// `R[C] != 0`.
pub open spec fn cmov_regs(pre: Seq<u32>, post: Seq<u32>, a: int, b: int, c: int) -> bool {
    post == (if pre[c] != 0 {
        pre.update(a, pre[b])
    } else {
        pre
    })
}

/// Register file after an addition: `R[A] := (R[B] + R[C]) mod 2^32`.
pub open spec fn add_regs(pre: Seq<u32>, post: Seq<u32>, a: int, b: int, c: int) -> bool {
    post == pre.update(a, (((pre[b] + pre[c]) % 0x1_0000_0000) as u32))
}

/// Register file after a multiplication: `R[A] := (R[B] * R[C]) mod 2^32`.
pub open spec fn mul_regs(pre: Seq<u32>, post: Seq<u32>, a: int, b: int, c: int) -> bool {
    post == pre.update(a, (((pre[b] * pre[c]) % 0x1_0000_0000) as u32))
}

/// Register file after a division with a non-zero divisor:
/// `R[A] := R[B] / R[C]`, unsigned, truncating toward zero.
pub open spec fn div_regs(pre: Seq<u32>, post: Seq<u32>, a: int, b: int, c: int) -> bool {
    post == pre.update(a, pre[b] / pre[c])
}

/// Register file after a bitwise NAND: `R[A] := !(R[B] & R[C])`.
pub open spec fn nand_regs(pre: Seq<u32>, post: Seq<u32>, a: int, b: int, c: int) -> bool {
    post == pre.update(a, !(pre[b] & pre[c]))
}

/// Register file after an immediate load: the destination register named by
/// bits 25-27 of the word receives the 25-bit immediate in bits 0-24.
pub open spec fn load_val_regs(pre: Seq<u32>, post: Seq<u32>, word: u32) -> bool {
    post == pre.update(spec_field(word, 3, 25) as int, spec_field(word, 25, 0))
}

/// Register file after delivering console input: the target register receives
/// the byte, or a word of all one bits at end of stream.
pub open spec fn input_regs(pre: Seq<u32>, post: Seq<u32>, c: int, byte: Option<u8>) -> bool {
    post == pre.update(
        c,
        (match byte {
            Some(v) => v as u32,
            None => 0xFFFF_FFFFu32,
        }),
    )
}

/// The side condition of a segmented load: `R[B]` names a live segment and
/// `R[C]` is inside it.
pub open spec fn seg_load_ok(m: UniversalMachine, b: int, c: int) -> bool {
    let h = m.registers@[b];
    let off = m.registers@[c];
    m.live(h) && off < m.mem_segs@[h as int]@.len()
}

/// State after a segmented load: `R[A] := mem[R[B]][R[C]]`.
pub open spec fn seg_load_rel(pre: UniversalMachine, post: UniversalMachine, a: int, b: int, c: int) -> bool {
    let h = pre.registers@[b];
    let off = pre.registers@[c];
    &&& segments_unchanged(pre, post)
    &&& post.registers@ == pre.registers@.update(a, pre.mem_segs@[h as int]@[off as int])
}

/// The side condition of a segmented store: `R[A]` names a live segment and
/// `R[B]` is inside it.
pub open spec fn seg_store_ok(m: UniversalMachine, a: int, b: int) -> bool {
    let h = m.registers@[a];
    let off = m.registers@[b];
    m.live(h) && off < m.mem_segs@[h as int]@.len()
}

/// State after a segmented store: `mem[R[A]][R[B]] := R[C]`; every other
/// word of every segment is untouched.
pub open spec fn seg_store_rel(pre: UniversalMachine, post: UniversalMachine, a: int, b: int, c: int) -> bool {
    let h = pre.registers@[a];
    let off = pre.registers@[b];
    let v = pre.registers@[c];
    &&& post.registers@ == pre.registers@
    &&& post.unmap_segs@ == pre.unmap_segs@
    &&& post.mapped@ == pre.mapped@
    &&& post.mem_segs@.len() == pre.mem_segs@.len()
    &&& post.mem_segs@[h as int]@ == pre.mem_segs@[h as int]@.update(off as int, v)
    &&& (forall|j: int|
        0 <= j < pre.mem_segs@.len() && j != h ==> post.mem_segs@[j] == pre.mem_segs@[j])
}

/// State after an allocation: the handle placed in `R[B]` was not live and
/// now names an all-zero segment of `R[C]` words. A reclaimed handle is
/// reused if one exists (stack order), else the next fresh index is taken.
pub open spec fn alloc_rel(pre: UniversalMachine, post: UniversalMachine, b: int, c: int) -> bool {
    let n = pre.registers@[c];
    let h = post.registers@[b];
    &&& post.registers@ == pre.registers@.update(b, h)
    &&& !pre.live(h)
    &&& post.live(h)
    &&& post.mem_segs@[h as int]@.len() == n
    &&& (forall|i: int| 0 <= i < n ==> post.mem_segs@[h as int]@[i] == 0)
    &&& (forall|j: int|
        0 <= j < pre.mem_segs@.len() && j != h ==> post.mem_segs@[j] == pre.mem_segs@[j])
    &&& (if pre.unmap_segs@.len() > 0 {
        &&& h == pre.unmap_segs@[pre.unmap_segs@.len() - 1]
        &&& post.unmap_segs@ == pre.unmap_segs@.subrange(0, pre.unmap_segs@.len() - 1)
        &&& post.mem_segs@.len() == pre.mem_segs@.len()
        &&& post.mapped@ == pre.mapped@.update(h as int, true)
    } else {
        &&& h == pre.mem_segs@.len()
        &&& post.mem_segs@.len() == pre.mem_segs@.len() + 1
        &&& post.unmap_segs@ == pre.unmap_segs@
        &&& post.mapped@ == pre.mapped@.push(true)
    })
}

/// State after a deallocation: the handle in `R[C]` stops being live and
/// joins the free list; its storage slot is left for later reuse.
pub open spec fn unmap_rel(pre: UniversalMachine, post: UniversalMachine, c: int) -> bool {
    let h = pre.registers@[c];
    &&& post.registers@ == pre.registers@
    &&& post.mem_segs@ == pre.mem_segs@
    &&& post.unmap_segs@ == pre.unmap_segs@.push(h)
    &&& post.mapped@ == pre.mapped@.update(h as int, false)
}

/// The side condition of a program load: `R[B]` is zero (plain jump) or names
/// a live segment.
pub open spec fn load_prog_ok(m: UniversalMachine, b: int) -> bool {
    let h = m.registers@[b];
    h == 0 || m.live(h)
}

/// State after a program load: if `R[B] != 0`, a duplicate of segment
/// `R[B]` replaces segment 0; either way the program counter becomes `R[C]`.
pub open spec fn load_prog_rel(pre: UniversalMachine, post: UniversalMachine, b: int, c: int) -> bool {
    let h = pre.registers@[b];
    &&& post.registers@ == pre.registers@
    &&& post.unmap_segs@ == pre.unmap_segs@
    &&& post.mapped@ == pre.mapped@
    &&& post.program_counter == pre.registers@[c]
    &&& (if h == 0 {
        post.mem_segs@ == pre.mem_segs@
    } else {
        &&& post.mem_segs@.len() == pre.mem_segs@.len()
        &&& post.mem_segs@[0]@ == pre.mem_segs@[h as int]@
        &&& (forall|j: int|
            1 <= j < pre.mem_segs@.len() ==> post.mem_segs@[j] == pre.mem_segs@[j])
    })
}

/// Conditional Move: if `R[C] != 0` then `R[A] := R[B]`.
pub fn cmov(um: &mut UniversalMachine, r_a: &u32, r_b: &u32, r_c: &u32)
    requires
        old(um).wf(),
        *r_a < 8,
        *r_b < 8,
        *r_c < 8,
    ensures
        final(um).wf(),
        segments_unchanged(*old(um), *final(um)),
        final(um).program_counter == old(um).program_counter,
        cmov_regs(old(um).registers@, final(um).registers@, *r_a as int, *r_b as int, *r_c as int),
{
    if um.registers[*r_c as usize] != 0 {
        let v = um.registers[*r_b as usize];
        um.registers.set(*r_a as usize, v);
    }
}

/// Addition: `R[A] := (R[B] + R[C]) mod 2^32`.
pub fn add(um: &mut UniversalMachine, r_a: &u32, r_b: &u32, r_c: &u32)
    requires
        old(um).wf(),
        *r_a < 8,
        *r_b < 8,
        *r_c < 8,
    ensures
        final(um).wf(),
        segments_unchanged(*old(um), *final(um)),
        final(um).program_counter == old(um).program_counter,
        add_regs(old(um).registers@, final(um).registers@, *r_a as int, *r_b as int, *r_c as int),
{
    let v = um.registers[*r_b as usize].wrapping_add(um.registers[*r_c as usize]);
    um.registers.set(*r_a as usize, v);
}

/// Multiplication: `R[A] := (R[B] * R[C]) mod 2^32`.
pub fn mul(um: &mut UniversalMachine, r_a: &u32, r_b: &u32, r_c: &u32)
    requires
        old(um).wf(),
        *r_a < 8,
        *r_b < 8,
        *r_c < 8,
    ensures
        final(um).wf(),
        segments_unchanged(*old(um), *final(um)),
        final(um).program_counter == old(um).program_counter,
        mul_regs(old(um).registers@, final(um).registers@, *r_a as int, *r_b as int, *r_c as int),
{
    let v = um.registers[*r_b as usize].wrapping_mul(um.registers[*r_c as usize]);
    um.registers.set(*r_a as usize, v);
}

/// Division: `R[A] := R[B] / R[C]` (unsigned integer division); a zero
/// divisor is fatal and leaves the machine untouched.
pub fn div(um: &mut UniversalMachine, r_a: &u32, r_b: &u32, r_c: &u32) -> (r: Result<(), Fault>)
    requires
        old(um).wf(),
        *r_a < 8,
        *r_b < 8,
        *r_c < 8,
    ensures
        final(um).wf(),
        old(um).registers@[*r_c as int] == 0 ==> r == Err::<(), Fault>(Fault::DivideByZero)
            && *final(um) == *old(um),
        old(um).registers@[*r_c as int] != 0 ==> r == Ok::<(), Fault>(()) && segments_unchanged(
            *old(um),
            *final(um),
        ) && final(um).program_counter == old(um).program_counter && div_regs(
            old(um).registers@,
            final(um).registers@,
            *r_a as int,
            *r_b as int,
            *r_c as int,
        ),
{
    let c_val = um.registers[*r_c as usize];
    if c_val == 0 {
        return Err(Fault::DivideByZero);
    }
    let v = um.registers[*r_b as usize] / c_val;
    um.registers.set(*r_a as usize, v);
    Ok(())
}

/// Bitwise NAND: `R[A] := !(R[B] & R[C])`.
pub fn nand(um: &mut UniversalMachine, r_a: &u32, r_b: &u32, r_c: &u32)
    requires
        old(um).wf(),
        *r_a < 8,
        *r_b < 8,
        *r_c < 8,
    ensures
        final(um).wf(),
        segments_unchanged(*old(um), *final(um)),
        final(um).program_counter == old(um).program_counter,
        nand_regs(old(um).registers@, final(um).registers@, *r_a as int, *r_b as int, *r_c as int),
{
    let v = !(um.registers[*r_b as usize] & um.registers[*r_c as usize]);
    um.registers.set(*r_a as usize, v);
}

/// Immediate load: the register named by bits 25-27 of `word` receives the
/// 25-bit immediate in bits 0-24.
pub fn load_val(um: &mut UniversalMachine, word: u32)
    requires
        old(um).wf(),
    ensures
        final(um).wf(),
        segments_unchanged(*old(um), *final(um)),
        final(um).program_counter == old(um).program_counter,
        load_val_regs(old(um).registers@, final(um).registers@, word),
{
    let rl = Field { width: 3, lsb: 25 };
    let vl = Field { width: 25, lsb: 0 };
    let index = crate::parser::get(&rl, &word);
    let value = crate::parser::get(&vl, &word);
    proof {
        assert(spec_field(word, 3, 25) < 8) by (bit_vector);
    }
    um.registers.set(index as usize, value);
}

/// The byte an Output instruction emits: `R[C]`, which must lie in 0-255; a
/// larger value is fatal.
pub fn output(um: &UniversalMachine, r_c: &u32) -> (r: Result<u8, Fault>)
    requires
        um.wf(),
        *r_c < 8,
    ensures
        um.registers@[*r_c as int] <= 255 ==> r == Ok::<u8, Fault>(
            um.registers@[*r_c as int] as u8,
        ),
        um.registers@[*r_c as int] > 255 ==> r == Err::<u8, Fault>(Fault::OutputOutOfRange),
{
    let v = um.registers[*r_c as usize];
    if v <= 255 {
        Ok(v as u8)
    } else {
        Err(Fault::OutputOutOfRange)
    }
}

/// Delivers one unit of console input to the machine: the byte read, or
/// `None` at end of stream, which loads a word of all one bits.
pub fn input(um: &mut UniversalMachine, r_c: &u32, byte: Option<u8>)
    requires
        old(um).wf(),
        *r_c < 8,
    ensures
        final(um).wf(),
        segments_unchanged(*old(um), *final(um)),
        final(um).program_counter == old(um).program_counter,
        input_regs(old(um).registers@, final(um).registers@, *r_c as int, byte),
{
    match byte {
        Some(v) => um.registers.set(*r_c as usize, v as u32),
        None => um.registers.set(*r_c as usize, 0xFFFF_FFFF),
    }
}

/// Segmented Load: `R[A] := mem[R[B]][R[C]]`; a dead handle or an
/// out-of-range offset is fatal and leaves the machine untouched.
pub fn seg_load(um: &mut UniversalMachine, r_a: &u32, r_b: &u32, r_c: &u32) -> (r: Result<
    (),
    Fault,
>)
    requires
        old(um).wf(),
        *r_a < 8,
        *r_b < 8,
        *r_c < 8,
    ensures
        final(um).wf(),
        seg_load_ok(*old(um), *r_b as int, *r_c as int) ==> r == Ok::<(), Fault>(())
            && final(um).program_counter == old(um).program_counter && seg_load_rel(
            *old(um),
            *final(um),
            *r_a as int,
            *r_b as int,
            *r_c as int,
        ),
        !seg_load_ok(*old(um), *r_b as int, *r_c as int) ==> r == Err::<(), Fault>(
            Fault::OutOfRangeAccess,
        ) && *final(um) == *old(um),
{
    let h = um.registers[*r_b as usize];
    let off = um.registers[*r_c as usize];
    if !((h as usize) < um.mem_segs.len()) {
        return Err(Fault::OutOfRangeAccess);
    }
    if !um.mapped[h as usize] {
        return Err(Fault::OutOfRangeAccess);
    }
    if !((off as usize) < um.mem_segs[h as usize].len()) {
        return Err(Fault::OutOfRangeAccess);
    }
    let v = um.mem_segs[h as usize][off as usize];
    um.registers.set(*r_a as usize, v);
    Ok(())
}

/// Segmented Store: `mem[R[A]][R[B]] := R[C]`; a dead handle or an
/// out-of-range offset is fatal and leaves the machine untouched.
pub fn seg_store(um: &mut UniversalMachine, r_a: &u32, r_b: &u32, r_c: &u32) -> (r: Result<
    (),
    Fault,
>)
    requires
        old(um).wf(),
        *r_a < 8,
        *r_b < 8,
        *r_c < 8,
    ensures
        final(um).wf(),
        seg_store_ok(*old(um), *r_a as int, *r_b as int) ==> r == Ok::<(), Fault>(())
            && final(um).program_counter == old(um).program_counter && seg_store_rel(
            *old(um),
            *final(um),
            *r_a as int,
            *r_b as int,
            *r_c as int,
        ),
        !seg_store_ok(*old(um), *r_a as int, *r_b as int) ==> r == Err::<(), Fault>(
            Fault::OutOfRangeAccess,
        ) && *final(um) == *old(um),
{
    let h = um.registers[*r_a as usize];
    let off = um.registers[*r_b as usize];
    let v = um.registers[*r_c as usize];
    if !((h as usize) < um.mem_segs.len()) {
        return Err(Fault::OutOfRangeAccess);
    }
    if !um.mapped[h as usize] {
        return Err(Fault::OutOfRangeAccess);
    }
    if !((off as usize) < um.mem_segs[h as usize].len()) {
        return Err(Fault::OutOfRangeAccess);
    }
    let mut seg: Vec<u32> = Vec::new();
    um.mem_segs.set_and_swap(h as usize, &mut seg);
    seg.set(off as usize, v);
    um.mem_segs.set_and_swap(h as usize, &mut seg);
    Ok(())
}

/// Map Segment: a new all-zero segment of `R[C]` words is created and its
/// handle — never that of a live segment — is placed in `R[B]`. A reclaimed
/// handle is reused when one is available.
pub fn map_seg(um: &mut UniversalMachine, r_b: &u32, r_c: &u32)
    requires
        old(um).wf(),
        old(um).can_allocate(),
        *r_b < 8,
        *r_c < 8,
    ensures
        final(um).wf(),
        final(um).program_counter == old(um).program_counter,
        alloc_rel(*old(um), *final(um), *r_b as int, *r_c as int),
{
    let ghost pre = *um;
    let r_c_data = um.registers[*r_c as usize];
    let n = r_c_data as usize;
    let mut new_segment: Vec<u32> = Vec::new();
    let mut i: usize = 0;
    while i < n
        invariant
            i <= n,
            new_segment@.len() == i,
            forall|k: int| 0 <= k < i ==> new_segment@[k] == 0,
        decreases n - i,
    {
        new_segment.push(0);
        i = i + 1;
    }
    if um.unmap_segs.len() > 0 {
        let popped = um.unmap_segs.pop();
        let h = match popped {
            Some(h) => h,
            None => {
                proof {
                    assert(false);
                }
                0
            },
        };
        proof {
            assert(pre.unmap_segs@[pre.unmap_segs@.len() - 1] == h);
            assert((h as int) < pre.mem_segs@.len());
            assert(pre.unmap_segs@.contains(h));
        }
        um.mem_segs.set(h as usize, new_segment);
        um.mapped.set(h as usize, true);
        um.registers.set(*r_b as usize, h);
        proof {
            lemma_wf_after_reuse(pre, *um, h);
        }
    } else {
        um.mem_segs.push(new_segment);
        um.mapped.push(true);
        let idx = (um.mem_segs.len() - 1) as u32;
        um.registers.set(*r_b as usize, idx);
        proof {
            lemma_wf_after_grow(pre, *um);
        }
    }
}

/// Re-establishes the free-list invariant after a segment is installed under
/// a handle just popped from the free list.
proof fn lemma_wf_after_reuse(pre: UniversalMachine, post: UniversalMachine, h: u32)
    requires
        pre.wf(),
        pre.unmap_segs@.len() > 0,
        h == pre.unmap_segs@[pre.unmap_segs@.len() - 1],
        post.registers@.len() == pre.registers@.len(),
        post.mem_segs@.len() == pre.mem_segs@.len(),
        post.unmap_segs@ == pre.unmap_segs@.subrange(0, pre.unmap_segs@.len() - 1),
        post.mapped@ == pre.mapped@.update(h as int, true),
    ensures
        post.wf(),
{
    assert forall|hh: int|
        0 <= hh < post.mem_segs@.len() implies ((#[trigger] post.mapped@[hh])
        <==> !post.unmap_segs@.contains(hh as u32)) by {
        if hh == h as int {
            if post.unmap_segs@.contains(hh as u32) {
                let i = choose|i: int|
                    0 <= i < post.unmap_segs@.len() && post.unmap_segs@[i] == hh as u32;
                assert(pre.unmap_segs@[i] == pre.unmap_segs@[pre.unmap_segs@.len() - 1]);
                assert(false);
            }
        } else {
            assert(pre.unmap_segs@.contains(h));
            if pre.unmap_segs@.contains(hh as u32) {
                let i = choose|i: int|
                    0 <= i < pre.unmap_segs@.len() && pre.unmap_segs@[i] == hh as u32;
                assert(i != pre.unmap_segs@.len() - 1);
                assert(post.unmap_segs@[i] == hh as u32);
                assert(post.unmap_segs@.contains(hh as u32));
            }
            if post.unmap_segs@.contains(hh as u32) {
                let i = choose|i: int|
                    0 <= i < post.unmap_segs@.len() && post.unmap_segs@[i] == hh as u32;
                assert(pre.unmap_segs@[i] == hh as u32);
                assert(pre.unmap_segs@.contains(hh as u32));
            }
        }
    }
}

/// Re-establishes the free-list invariant after a segment is appended at a
/// fresh index, which no free-list entry can name.
proof fn lemma_wf_after_grow(pre: UniversalMachine, post: UniversalMachine)
    requires
        pre.wf(),
        pre.unmap_segs@.len() == 0,
        pre.mem_segs@.len() < 0x1_0000_0000,
        post.registers@.len() == pre.registers@.len(),
        post.mem_segs@.len() == pre.mem_segs@.len() + 1,
        post.unmap_segs@ == pre.unmap_segs@,
        post.mapped@ == pre.mapped@.push(true),
    ensures
        post.wf(),
{
    assert forall|hh: int|
        0 <= hh < post.mem_segs@.len() implies ((#[trigger] post.mapped@[hh])
        <==> !post.unmap_segs@.contains(hh as u32)) by {
        if post.unmap_segs@.contains(hh as u32) {
            let i = choose|i: int|
                0 <= i < post.unmap_segs@.len() && post.unmap_segs@[i] == hh as u32;
            assert(false);
        }
    }
}

/// Unmap Segment: the segment named by `R[C]` is unmapped and its handle may
/// be reused by later allocations; a handle that names no live segment is
/// fatal and leaves the machine untouched.
pub fn unmap_seg(um: &mut UniversalMachine, r_c: &u32) -> (r: Result<(), Fault>)
    requires
        old(um).wf(),
        *r_c < 8,
    ensures
        final(um).wf(),
        old(um).live(old(um).registers@[*r_c as int]) ==> r == Ok::<(), Fault>(())
            && final(um).program_counter == old(um).program_counter && unmap_rel(
            *old(um),
            *final(um),
            *r_c as int,
        ),
        !old(um).live(old(um).registers@[*r_c as int]) ==> r == Err::<(), Fault>(
            Fault::InvalidUnmap,
        ) && *final(um) == *old(um),
{
    let ghost pre = *um;
    let h = um.registers[*r_c as usize];
    if !((h as usize) < um.mem_segs.len()) {
        return Err(Fault::InvalidUnmap);
    }
    if !um.mapped[h as usize] {
        return Err(Fault::InvalidUnmap);
    }
    um.unmap_segs.push(h);
    um.mapped.set(h as usize, false);
    proof {
        lemma_wf_after_unmap(pre, *um, h);
    }
    Ok(())
}

/// Re-establishes the free-list invariant after a live handle is pushed onto
/// the free list: it was not there before, so the list stays duplicate-free.
proof fn lemma_wf_after_unmap(pre: UniversalMachine, post: UniversalMachine, h: u32)
    requires
        pre.wf(),
        pre.live(h),
        post.registers@.len() == pre.registers@.len(),
        post.mem_segs@.len() == pre.mem_segs@.len(),
        post.unmap_segs@ == pre.unmap_segs@.push(h),
        post.mapped@ == pre.mapped@.update(h as int, false),
    ensures
        post.wf(),
{
    assert(!pre.unmap_segs@.contains(h));
    assert forall|i: int, j: int|
        0 <= i < j < post.unmap_segs@.len() implies post.unmap_segs@[i]
        != post.unmap_segs@[j] by {
        if j == pre.unmap_segs@.len() {
            if post.unmap_segs@[i] == h {
                assert(pre.unmap_segs@[i] == h);
                assert(pre.unmap_segs@.contains(h));
                assert(false);
            }
        }
    }
    assert forall|hh: int|
        0 <= hh < post.mem_segs@.len() implies ((#[trigger] post.mapped@[hh])
        <==> !post.unmap_segs@.contains(hh as u32)) by {
        if hh == h as int {
            assert(post.unmap_segs@[pre.unmap_segs@.len() as int] == h);
            assert(post.unmap_segs@.contains(hh as u32));
        } else {
            if pre.unmap_segs@.contains(hh as u32) {
                let i = choose|i: int|
                    0 <= i < pre.unmap_segs@.len() && pre.unmap_segs@[i] == hh as u32;
                assert(post.unmap_segs@[i] == hh as u32);
                assert(post.unmap_segs@.contains(hh as u32));
            }
            if post.unmap_segs@.contains(hh as u32) {
                let i = choose|i: int|
                    0 <= i < post.unmap_segs@.len() && post.unmap_segs@[i] == hh as u32;
                assert(i != pre.unmap_segs@.len());
                assert(pre.unmap_segs@[i] == hh as u32);
                assert(pre.unmap_segs@.contains(hh as u32));
            }
        }
    }
}

/// Load Program: if `R[B] != 0`, segment `R[B]` is duplicated and the
/// duplicate replaces segment 0; the program counter becomes `R[C]` either
/// way. A non-zero handle that names no live segment is fatal and leaves the
/// machine untouched.
pub fn load_prog(um: &mut UniversalMachine, r_b: &u32, r_c: &u32) -> (r: Result<(), Fault>)
    requires
        old(um).wf(),
        *r_b < 8,
        *r_c < 8,
    ensures
        final(um).wf(),
        load_prog_ok(*old(um), *r_b as int) ==> r == Ok::<(), Fault>(()) && load_prog_rel(
            *old(um),
            *final(um),
            *r_b as int,
            *r_c as int,
        ),
        !load_prog_ok(*old(um), *r_b as int) ==> r == Err::<(), Fault>(Fault::OutOfRangeAccess)
            && *final(um) == *old(um),
{
    let h = um.registers[*r_b as usize];
    if h != 0 {
        if !((h as usize) < um.mem_segs.len()) {
            return Err(Fault::OutOfRangeAccess);
        }
        if !um.mapped[h as usize] {
            return Err(Fault::OutOfRangeAccess);
        }
        let src_seg = um.mem_segs[h as usize].clone();
        proof {
            assert forall|i: int|
                0 <= i < src_seg@.len() implies src_seg@[i] == um.mem_segs@[h as int]@[i] by {
                assert(vstd::pervasive::cloned(um.mem_segs@[h as int]@[i], src_seg@[i]));
            }
            assert(src_seg@ =~= um.mem_segs@[h as int]@);
        }
        um.mem_segs.set(0, src_seg);
    }
    um.program_counter = um.registers[*r_c as usize] as usize;
    Ok(())
}

} // verus!
