//! Machine state: eight 32-bit registers, a segment table with a free list of
//! reclaimed handles, and the program counter.

use vstd::prelude::*;

verus! {

/// The fatal conditions that abort the machine. None of them is recoverable:
/// the driving loop is expected to stop on any of them.
#[derive(Clone, Copy, Debug, PartialEq, Eq, Structural)]
pub enum Fault {
    /// Division with a zero divisor.
    DivideByZero,
    /// A segment handle that names no live segment, or an offset outside the
    /// segment's current length (including an out-of-range program counter).
    OutOfRangeAccess,
    /// An Output instruction whose operand value exceeds 255.
    OutputOutOfRange,
    /// An instruction word whose opcode field names no defined opcode.
    UnknownOpcode,
    /// Deallocation of a handle that names no live segment.
    InvalidUnmap,
}

/// What a single execution cycle asks of its caller. The machine core never
/// touches the console itself; it reports I/O as values.
#[derive(Clone, Copy, Debug, PartialEq, Eq, Structural)]
pub enum StepEffect {
    /// The cycle completed; run the next one.
    Continue,
    /// The halt instruction was executed: terminate successfully.
    Halted,
    /// Emit this byte on the console, then run the next cycle.
    Output(u8),
    /// Read one byte from the console and hand it to
    /// [`crate::instructions::input`] together with this target register
    /// index, then run the next cycle.
    AwaitInput(u32),
}

/// The whole interpreter state. Segment 0 holds the instruction stream that
/// is currently executing.
pub struct UniversalMachine {
    /// Word index into segment 0 of the next instruction to fetch.
    pub program_counter: usize,
    /// The eight general-purpose registers.
    pub registers: Vec<u32>,
    /// The segment table, indexed by handle.
    pub mem_segs: Vec<Vec<u32>>,
    /// Reclaimed handles awaiting reuse, used as a stack.
    pub unmap_segs: Vec<u32>,
    /// `mapped[h]` says whether handle `h` currently names a live segment;
    /// kept so that liveness checks cost one lookup.
    pub mapped: Vec<bool>,
}

impl UniversalMachine {
    /// The state invariant: eight registers; segment 0's slot exists; every
    /// handle fits in 32 bits; the free list holds exactly the non-live
    /// handles, each at most once.
    pub open spec fn wf(self) -> bool {
        &&& self.registers@.len() == 8
        &&& 1 <= self.mem_segs@.len() <= 0x1_0000_0000
        &&& self.mapped@.len() == self.mem_segs@.len()
        &&& (forall|i: int|
            0 <= i < self.unmap_segs@.len() ==> (#[trigger] self.unmap_segs@[i]) < self.mem_segs@.len())
        &&& (forall|i: int, j: int|
            0 <= i < j < self.unmap_segs@.len() ==> self.unmap_segs@[i] != self.unmap_segs@[j])
        &&& (forall|h: int|
            0 <= h < self.mem_segs@.len()
                ==> ((#[trigger] self.mapped@[h]) <==> !self.unmap_segs@.contains(h as u32)))
    }

    /// Whether `h` names a currently mapped segment.
    pub open spec fn live(self, h: u32) -> bool {
        h < self.mem_segs@.len() && self.mapped@[h as int]
    }

    /// Whether one more segment can be allocated without a handle outgrowing
    /// 32 bits: either a reclaimed handle is available or the table has room
    /// for a fresh index.
    pub open spec fn can_allocate(self) -> bool {
        self.unmap_segs@.len() > 0 || self.mem_segs@.len() < 0x1_0000_0000
    }

    /// A fresh machine: all registers zero, the program counter at zero, and
    /// a single live, empty segment under handle 0, awaiting the program.
    pub fn new() -> (um: Self)
        ensures
            um.wf(),
            um.program_counter == 0,
            um.registers@.len() == 8,
            forall|i: int| 0 <= i < 8 ==> um.registers@[i] == 0,
            um.mem_segs@.len() == 1,
            um.mem_segs@[0]@.len() == 0,
            um.unmap_segs@.len() == 0,
            um.mapped@.len() == 1,
            um.mapped@[0],
    {
        let mut registers: Vec<u32> = Vec::new();
        let mut i: usize = 0;
        while i < 8
            invariant
                i <= 8,
                registers@.len() == i,
                forall|k: int| 0 <= k < i ==> registers@[k] == 0,
            decreases 8 - i,
        {
            registers.push(0);
            i = i + 1;
        }
        let mut mem_segs: Vec<Vec<u32>> = Vec::new();
        mem_segs.push(Vec::new());
        let mut mapped: Vec<bool> = Vec::new();
        mapped.push(true);
        Self { program_counter: 0, registers, mem_segs, unmap_segs: Vec::new(), mapped }
    }
}

/// The segment table (segments, free list, liveness marks) is untouched.
pub open spec fn segments_unchanged(pre: UniversalMachine, post: UniversalMachine) -> bool {
    &&& post.mem_segs@ == pre.mem_segs@
    &&& post.unmap_segs@ == pre.unmap_segs@
    &&& post.mapped@ == pre.mapped@
}

} // verus!
