//! Instruction-word decoding and the fetch-decode-execute cycle.

use vstd::prelude::*;

use crate::instructions;
use crate::instructions::add_regs;
use crate::instructions::alloc_rel;
use crate::instructions::cmov_regs;
use crate::instructions::div_regs;
use crate::instructions::load_prog_ok;
use crate::instructions::load_prog_rel;
use crate::instructions::load_val_regs;
use crate::instructions::mul_regs;
use crate::instructions::nand_regs;
use crate::instructions::seg_load_ok;
use crate::instructions::seg_load_rel;
use crate::instructions::seg_store_ok;
use crate::instructions::seg_store_rel;
use crate::instructions::unmap_rel;
use crate::um::Fault;
use crate::um::StepEffect;
use crate::um::UniversalMachine;
use crate::um::segments_unchanged;

verus! {

/// A bit field of an instruction word: `width` bits starting at bit `lsb`.
pub struct Field {
    pub width: u32,
    pub lsb: u32,
}

/// The value whose low `width` bits are set.
pub open spec fn low_mask(width: u32) -> u32
    recommends
        width < 32,
{
    (((1u32 << width) - 1) as u32)
}

/// The unsigned value of the `width`-bit field of `instruction` at bit `lsb`,
/// shifted down to position zero.
pub open spec fn spec_field(instruction: u32, width: u32, lsb: u32) -> u32
    recommends
        width < 32,
        lsb < 32,
{
    (instruction >> lsb) & low_mask(width)
}

/// A mask with the low `bits` bits set.
pub fn mask(bits: u32) -> (r: u32)
    requires
        bits < 32,
    ensures
        r == low_mask(bits),
{
    proof {
        assert(bits < 32 ==> (1u32 << bits) >= 1) by (bit_vector);
    }
    (1u32 << bits) - 1
}

/// Extracts a bit field from an instruction word.
pub fn get(field: &Field, instruction: &u32) -> (r: u32)
    requires
        field.width < 32,
        field.lsb < 32,
    ensures
        r == spec_field(*instruction, field.width, field.lsb),
{
    (*instruction >> field.lsb) & mask(field.width)
}

/// Extracts the 4-bit opcode field (bits 28-31) of an instruction word.
pub fn op(instruction: u32) -> (r: u32)
    ensures
        r == spec_field(instruction, 4, 28),
{
    (instruction >> 28) & mask(4)
}

/// The fourteen defined operations, in opcode order starting at 0.
#[derive(Debug, PartialEq, Eq, Structural, Copy, Clone)]
pub enum Opcode {
    CMov,
    SegLoad,
    SegStore,
    Add,
    Mul,
    Div,
    Nand,
    Halt,
    MapSeg,
    UnmapSeg,
    Output,
    Input,
    LoadProg,
    LoadVal,
}

/// The operation a 4-bit opcode value names, if any.
pub open spec fn opcode_of(code: u32) -> Option<Opcode> {
    if code == 0 {
        Some(Opcode::CMov)
    } else if code == 1 {
        Some(Opcode::SegLoad)
    } else if code == 2 {
        Some(Opcode::SegStore)
    } else if code == 3 {
        Some(Opcode::Add)
    } else if code == 4 {
        Some(Opcode::Mul)
    } else if code == 5 {
        Some(Opcode::Div)
    } else if code == 6 {
        Some(Opcode::Nand)
    } else if code == 7 {
        Some(Opcode::Halt)
    } else if code == 8 {
        Some(Opcode::MapSeg)
    } else if code == 9 {
        Some(Opcode::UnmapSeg)
    } else if code == 10 {
        Some(Opcode::Output)
    } else if code == 11 {
        Some(Opcode::Input)
    } else if code == 12 {
        Some(Opcode::LoadProg)
    } else if code == 13 {
        Some(Opcode::LoadVal)
    } else {
        None
    }
}

/// Decodes an opcode value into the operation it names.
pub fn opcode_from_u32(code: u32) -> (r: Option<Opcode>)
    ensures
        r == opcode_of(code),
{
    match code {
        0u32 => Some(Opcode::CMov),
        1u32 => Some(Opcode::SegLoad),
        2u32 => Some(Opcode::SegStore),
        3u32 => Some(Opcode::Add),
        4u32 => Some(Opcode::Mul),
        5u32 => Some(Opcode::Div),
        6u32 => Some(Opcode::Nand),
        7u32 => Some(Opcode::Halt),
        8u32 => Some(Opcode::MapSeg),
        9u32 => Some(Opcode::UnmapSeg),
        10u32 => Some(Opcode::Output),
        11u32 => Some(Opcode::Input),
        12u32 => Some(Opcode::LoadProg),
        13u32 => Some(Opcode::LoadVal),
        _ => None,
    }
}

/// Whether the next instruction can be fetched: segment 0 is live and the
/// program counter lies inside it.
pub open spec fn fetch_ok(m: UniversalMachine) -> bool {
    m.live(0) && m.program_counter < m.mem_segs@[0]@.len()
}

/// The instruction word the program counter points at.
pub open spec fn cur_inst(m: UniversalMachine) -> u32 {
    m.mem_segs@[0]@[m.program_counter as int]
}

/// Nothing changed at all.
pub open spec fn machine_unchanged(pre: UniversalMachine, post: UniversalMachine) -> bool {
    &&& post.registers@ == pre.registers@
    &&& segments_unchanged(pre, post)
    &&& post.program_counter == pre.program_counter
}

/// Nothing changed but the program counter, which advanced past the fetched
/// word.
pub open spec fn only_pc_advanced(pre: UniversalMachine, post: UniversalMachine) -> bool {
    &&& post.registers@ == pre.registers@
    &&& segments_unchanged(pre, post)
    &&& post.program_counter == pre.program_counter + 1
}

/// The complete meaning of one execution cycle: how the machine after the
/// cycle and the reported outcome follow from the machine before it. The
/// fetched word's opcode selects the operation; its register operands are the
/// 3-bit fields at bits 6, 3 and 0, except for the immediate load, which uses
/// the whole word. A fatal condition reports its fault and alters no state
/// beyond the already-advanced program counter.
pub open spec fn step_rel(
    pre: UniversalMachine,
    post: UniversalMachine,
    r: Result<StepEffect, Fault>,
) -> bool {
    if !fetch_ok(pre) {
        machine_unchanged(pre, post) && r == Err::<StepEffect, Fault>(Fault::OutOfRangeAccess)
    } else {
        let inst = cur_inst(pre);
        let a = spec_field(inst, 3, 6) as int;
        let b = spec_field(inst, 3, 3) as int;
        let c = spec_field(inst, 3, 0) as int;
        match opcode_of(spec_field(inst, 4, 28)) {
            None => r == Err::<StepEffect, Fault>(Fault::UnknownOpcode) && only_pc_advanced(
                pre,
                post,
            ),
            Some(opc) => match opc {
                Opcode::CMov => r == Ok::<StepEffect, Fault>(StepEffect::Continue)
                    && only_regs_op(pre, post) && cmov_regs(
                    pre.registers@,
                    post.registers@,
                    a,
                    b,
                    c,
                ),
                Opcode::SegLoad => if seg_load_ok(pre, b, c) {
                    r == Ok::<StepEffect, Fault>(StepEffect::Continue) && post.program_counter
                        == pre.program_counter + 1 && seg_load_rel(pre, post, a, b, c)
                } else {
                    r == Err::<StepEffect, Fault>(Fault::OutOfRangeAccess) && only_pc_advanced(
                        pre,
                        post,
                    )
                },
                Opcode::SegStore => if seg_store_ok(pre, a, b) {
                    r == Ok::<StepEffect, Fault>(StepEffect::Continue) && post.program_counter
                        == pre.program_counter + 1 && seg_store_rel(pre, post, a, b, c)
                } else {
                    r == Err::<StepEffect, Fault>(Fault::OutOfRangeAccess) && only_pc_advanced(
                        pre,
                        post,
                    )
                },
                Opcode::Add => r == Ok::<StepEffect, Fault>(StepEffect::Continue) && only_regs_op(
                    pre,
                    post,
                ) && add_regs(pre.registers@, post.registers@, a, b, c),
                Opcode::Mul => r == Ok::<StepEffect, Fault>(StepEffect::Continue) && only_regs_op(
                    pre,
                    post,
                ) && mul_regs(pre.registers@, post.registers@, a, b, c),
                Opcode::Div => if pre.registers@[c] == 0 {
                    r == Err::<StepEffect, Fault>(Fault::DivideByZero) && only_pc_advanced(
                        pre,
                        post,
                    )
                } else {
                    r == Ok::<StepEffect, Fault>(StepEffect::Continue) && only_regs_op(pre, post)
                        && div_regs(pre.registers@, post.registers@, a, b, c)
                },
                Opcode::Nand => r == Ok::<StepEffect, Fault>(StepEffect::Continue) && only_regs_op(
                    pre,
                    post,
                ) && nand_regs(pre.registers@, post.registers@, a, b, c),
                Opcode::Halt => r == Ok::<StepEffect, Fault>(StepEffect::Halted)
                    && only_pc_advanced(pre, post),
                Opcode::MapSeg => r == Ok::<StepEffect, Fault>(StepEffect::Continue)
                    && post.program_counter == pre.program_counter + 1 && alloc_rel(
                    pre,
                    post,
                    b,
                    c,
                ),
                Opcode::UnmapSeg => if pre.live(pre.registers@[c]) {
                    r == Ok::<StepEffect, Fault>(StepEffect::Continue) && post.program_counter
                        == pre.program_counter + 1 && unmap_rel(pre, post, c)
                } else {
                    r == Err::<StepEffect, Fault>(Fault::InvalidUnmap) && only_pc_advanced(
                        pre,
                        post,
                    )
                },
                Opcode::Output => if pre.registers@[c] <= 255 {
                    r == Ok::<StepEffect, Fault>(
                        StepEffect::Output(pre.registers@[c] as u8),
                    ) && only_pc_advanced(pre, post)
                } else {
                    r == Err::<StepEffect, Fault>(Fault::OutputOutOfRange) && only_pc_advanced(
                        pre,
                        post,
                    )
                },
                Opcode::Input => r == Ok::<StepEffect, Fault>(
                    StepEffect::AwaitInput(spec_field(inst, 3, 0)),
                ) && only_pc_advanced(pre, post),
                Opcode::LoadProg => if load_prog_ok(pre, b) {
                    r == Ok::<StepEffect, Fault>(StepEffect::Continue) && load_prog_rel(
                        pre,
                        post,
                        b,
                        c,
                    )
                } else {
                    r == Err::<StepEffect, Fault>(Fault::OutOfRangeAccess) && only_pc_advanced(
                        pre,
                        post,
                    )
                },
                Opcode::LoadVal => r == Ok::<StepEffect, Fault>(StepEffect::Continue)
                    && only_regs_op(pre, post) && load_val_regs(
                    pre.registers@,
                    post.registers@,
                    inst,
                ),
            },
        }
    }
}

/// A register-only operation: the segment table is untouched and the program
/// counter advanced past the fetched word.
pub open spec fn only_regs_op(pre: UniversalMachine, post: UniversalMachine) -> bool {
    segments_unchanged(pre, post) && post.program_counter == pre.program_counter + 1
}

/// One fetch-decode-execute cycle. Fetches the word at `segment[0][pc]`,
/// advances the program counter, decodes the word and dispatches on its
/// opcode; the returned effect tells the driving loop what the cycle asks of
/// the outside world. The full transition is [`step_rel`].
pub fn parse(um: &mut UniversalMachine) -> (r: Result<StepEffect, Fault>)
    requires
        old(um).wf(),
        old(um).can_allocate(),
    ensures
        final(um).wf(),
        step_rel(*old(um), *final(um), r),
{
    if !um.mapped[0] {
        return Err(Fault::OutOfRangeAccess);
    }
    if !(um.program_counter < um.mem_segs[0].len()) {
        return Err(Fault::OutOfRangeAccess);
    }
    let inst = um.mem_segs[0][um.program_counter];
    um.program_counter = um.program_counter + 1;
    let f_op = Field { width: 4, lsb: 28 };
    let f_a = Field { width: 3, lsb: 6 };
    let f_b = Field { width: 3, lsb: 3 };
    let f_c = Field { width: 3, lsb: 0 };
    let opc = get(&f_op, &inst);
    let a = get(&f_a, &inst);
    let b = get(&f_b, &inst);
    let c = get(&f_c, &inst);
    proof {
        assert(spec_field(inst, 3, 6) < 8 && spec_field(inst, 3, 3) < 8 && spec_field(inst, 3, 0)
            < 8) by (bit_vector);
    }
    match opcode_from_u32(opc) {
        Some(Opcode::CMov) => {
            instructions::cmov(um, &a, &b, &c);
            Ok(StepEffect::Continue)
        },
        Some(Opcode::SegLoad) => {
            match instructions::seg_load(um, &a, &b, &c) {
                Ok(()) => Ok(StepEffect::Continue),
                Err(f) => Err(f),
            }
        },
        Some(Opcode::SegStore) => {
            match instructions::seg_store(um, &a, &b, &c) {
                Ok(()) => Ok(StepEffect::Continue),
                Err(f) => Err(f),
            }
        },
        Some(Opcode::Add) => {
            instructions::add(um, &a, &b, &c);
            Ok(StepEffect::Continue)
        },
        Some(Opcode::Mul) => {
            instructions::mul(um, &a, &b, &c);
            Ok(StepEffect::Continue)
        },
        Some(Opcode::Div) => {
            match instructions::div(um, &a, &b, &c) {
                Ok(()) => Ok(StepEffect::Continue),
                Err(f) => Err(f),
            }
        },
        Some(Opcode::Nand) => {
            instructions::nand(um, &a, &b, &c);
            Ok(StepEffect::Continue)
        },
        Some(Opcode::Halt) => Ok(StepEffect::Halted),
        Some(Opcode::MapSeg) => {
            instructions::map_seg(um, &b, &c);
            Ok(StepEffect::Continue)
        },
        Some(Opcode::UnmapSeg) => {
            match instructions::unmap_seg(um, &c) {
                Ok(()) => Ok(StepEffect::Continue),
                Err(f) => Err(f),
            }
        },
        Some(Opcode::Output) => {
            match instructions::output(um, &c) {
                Ok(byte) => Ok(StepEffect::Output(byte)),
                Err(f) => Err(f),
            }
        },
        Some(Opcode::Input) => Ok(StepEffect::AwaitInput(c)),
        Some(Opcode::LoadProg) => {
            match instructions::load_prog(um, &b, &c) {
                Ok(()) => Ok(StepEffect::Continue),
                Err(f) => Err(f),
            }
        },
        Some(Opcode::LoadVal) => {
            instructions::load_val(um, inst);
            Ok(StepEffect::Continue)
        },
        None => Err(Fault::UnknownOpcode),
    }
}

} // verus!
