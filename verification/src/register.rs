//! The register/execution engine: the register file, program counter, call
//! stack and timers, and the state machine that applies one decoded
//! instruction and reports the side effect it cannot perform itself.
//!
//! VF is doubly used: the carry/borrow/collision flag of an instruction is
//! stored into general register 15, where subsequent instructions read it
//! as a plain register; where VF is also the destination, the flag wins.
//!
//! The engine takes the current key state as an explicit input parameter:
//! the skip-on-key instructions consult the keypad directly and advance the
//! program counter themselves, rather than yielding a key-query side effect
//! for the frame driver to answer.

use vstd::prelude::*;

use crate::isa::Instruction;
use crate::isa::inst_wf;
use crate::keypad::Keypad;

verus! {

/// Number of general-purpose registers (V0..=VF).
pub const GENERAL_REGISTERS_CNT: usize = 16;

/// Program counter value at machine start: programs are loaded at 0x200.
pub const INIT_PROGRAM_COUNTER_VAL: u16 = 0x200;

/// What the engine asks the frame driver to perform on its behalf: anything
/// that touches memory, the display or the run-state.
#[derive(Debug)]
pub enum SideEffect {
    /// Draw the n-byte sprite at memory address `l` at position `pos`.
    Draw { pos: (u8, u8), n: u8, l: u16 },
    /// Clear the display buffer.
    ClearDisplay,
    /// Write `dump_vals` to memory starting at address `l`.
    MemDump { dump_vals: Vec<u8>, l: u16 },
    /// Read `count` bytes from memory at address `l` into V0 onward.
    MemRead { count: u8, l: u16 },
    /// Suspend execution until a key is pressed; store it in register `r`.
    WaitKeyPress { r: u8 },
}

/// The side effect of one timer update.
#[derive(Clone, Copy, Debug, PartialEq, Eq, Structural)]
pub enum TimerSideEffect {
    /// Do nothing.
    Quiet,
    /// Beep for one frame: the sound timer was nonzero before it was
    /// decremented.
    Beep,
}

/// A fatal invariant violation the engine reports rather than ignores.
#[derive(Clone, Copy, Debug, PartialEq, Eq, Structural)]
pub enum ExecError {
    /// A return-from-subroutine was executed with an empty call stack.
    EmptyCallStackReturn,
}

/// The register file and execution state: sixteen 8-bit general registers,
/// the 16-bit index register, the boolean carry/borrow/collision flag used
/// within an instruction, the program counter, the call stack of return
/// addresses, and the two 8-bit countdown timers.
pub struct Registers {
    /// General-purpose registers V0..=VF.
    pub g: Vec<u8>,
    /// Index register L, the base address for sprite and bulk memory ops.
    pub sl: u16,
    /// Carry/borrow/collision flag.
    pub vf: bool,
    /// Program counter.
    pub pc: u16,
    /// Call stack of return addresses.
    pub spst: Vec<u16>,
    /// Delay timer.
    pub dt: u8,
    /// Sound timer.
    pub st: u8,
}

/// The program counter advanced by a number of 2-byte words, wrapping in
/// 16 bits.
pub open spec fn pc_plus(pc: u16, words: u16) -> u16 {
    ((pc + 2 * words) % 0x10000) as u16
}

/// Addition of two bytes, wrapping modulo 256.
pub open spec fn wrap_add8(a: u8, b: u8) -> u8 {
    ((a + b) % 256) as u8
}

/// Subtraction of two bytes, wrapping modulo 256.
pub open spec fn wrap_sub8(a: u8, b: u8) -> u8 {
    if a >= b {
        (a - b) as u8
    } else {
        (a + 256 - b) as u8
    }
}

/// The byte form of the carry/borrow/collision flag, as it is stored into
/// register VF: 1 for a set flag, 0 for a clear one.
pub open spec fn flag_byte(b: bool) -> u8 {
    if b {
        1
    } else {
        0
    }
}

/// A countdown timer after one frame: decremented once, stopping at zero.
pub open spec fn timer_dec(t: u8) -> u8 {
    if t > 0 {
        (t - 1) as u8
    } else {
        0
    }
}

impl Registers {
    /// Well-formedness: one cell per general register.
    pub open spec fn wf(&self) -> bool {
        self.g@.len() == 16
    }

    /// Everything but the program counter is unchanged.
    pub open spec fn same_but_pc(pre: Registers, post: Registers) -> bool {
        post.g@ == pre.g@ && post.vf == pre.vf && post.sl == pre.sl && post.spst@ == pre.spst@
            && post.dt == pre.dt && post.st == pre.st
    }

    /// Everything but the register file and the flag is unchanged.
    pub open spec fn same_but_g_vf(pre: Registers, post: Registers) -> bool {
        post.pc == pre.pc && post.sl == pre.sl && post.spst@ == pre.spst@ && post.dt == pre.dt
            && post.st == pre.st
    }

    /// Everything but the general register file is unchanged.
    pub open spec fn same_but_g(pre: Registers, post: Registers) -> bool {
        post.vf == pre.vf && post.pc == pre.pc && post.sl == pre.sl && post.spst@ == pre.spst@
            && post.dt == pre.dt && post.st == pre.st
    }

    /// Everything but the two timers is unchanged.
    pub open spec fn same_but_timers(pre: Registers, post: Registers) -> bool {
        post.g@ == pre.g@ && post.vf == pre.vf && post.pc == pre.pc && post.sl == pre.sl
            && post.spst@ == pre.spst@
    }

    /// Create the register state of a machine at start: all registers zero,
    /// the flag clear, the call stack empty, and the program counter at the
    /// program load address.
    pub fn new() -> (r: Registers)
        ensures
            r.wf(),
            forall|i: int| 0 <= i < 16 ==> r.g@[i] == 0u8,
            r.sl == 0,
            !r.vf,
            r.pc == 0x200,
            r.spst@.len() == 0,
            r.dt == 0,
            r.st == 0,
    {
        let mut g: Vec<u8> = Vec::new();
        let mut i: usize = 0;
        while i < GENERAL_REGISTERS_CNT
            invariant
                i <= 16,
                g@.len() == i,
                forall|k: int| 0 <= k < i ==> g@[k] == 0u8,
            decreases 16 - i,
        {
            g.push(0);
            i = i + 1;
        }
        Registers {
            g,
            sl: 0,
            vf: false,
            pc: INIT_PROGRAM_COUNTER_VAL,
            spst: Vec::new(),
            dt: 0,
            st: 0,
        }
    }

    /// The current program counter.
    pub fn get_pc(&self) -> (r: u16)
        ensures
            r == self.pc,
    {
        self.pc
    }

    /// Set the program counter.
    pub fn set_pc(&mut self, new_pc: u16)
        ensures
            final(self).pc == new_pc,
            Registers::same_but_pc(*old(self), *final(self)),
    {
        self.pc = new_pc;
    }

    /// Advance the program counter by a number of 2-byte instruction words,
    /// wrapping in 16 bits.
    pub fn increase_pc(&mut self, inst_count: u16)
        ensures
            final(self).pc == pc_plus(old(self).pc, inst_count),
            Registers::same_but_pc(*old(self), *final(self)),
    {
        let wide: u32 = self.pc as u32 + (inst_count as u32) * 2;
        self.pc = (wide % 0x10000) as u16;
    }

    /// Set the carry/borrow/collision flag. VF is a real register doubly
    /// used as the flag, so the value also lands in general register 15,
    /// where subsequent instructions read it.
    pub fn update_vf(&mut self, is_set: bool)
        requires
            old(self).wf(),
        ensures
            final(self).wf(),
            final(self).vf == is_set,
            final(self).g@ == old(self).g@.update(15, flag_byte(is_set)),
            Registers::same_but_g_vf(*old(self), *final(self)),
    {
        self.vf = is_set;
        self.g.set(15, if is_set { 1 } else { 0 });
    }

    /// The value of the general register with the given index, V0..=VF.
    pub fn general_register(&self, r: u8) -> (v: u8)
        requires
            self.wf(),
            r < 16,
        ensures
            v == self.g@[r as int],
    {
        self.g[r as usize]
    }

    /// Store a new value into a general register, V0..=VF; an index beyond
    /// the register file is ignored.
    pub fn update_general_register(&mut self, r: u8, value: u8)
        requires
            old(self).wf(),
        ensures
            final(self).wf(),
            final(self).g@ == if r < 16 {
                old(self).g@.update(r as int, value)
            } else {
                old(self).g@
            },
            Registers::same_but_g(*old(self), *final(self)),
    {
        if r >= 0x10 {
            return ;
        }
        self.g.set(r as usize, value);
    }

    /// Copy the given values into the general registers starting at V0.
    pub fn store_from_v0(&mut self, values: &Vec<u8>)
        requires
            old(self).wf(),
            values@.len() <= 16,
        ensures
            final(self).wf(),
            final(self).g@.len() == 16,
            forall|i: int|
                0 <= i < values@.len() ==> final(self).g@[i] == values@[i],
            forall|i: int|
                values@.len() <= i < 16 ==> final(self).g@[i] == old(self).g@[i],
            Registers::same_but_g(*old(self), *final(self)),
    {
        let mut idx: usize = 0;
        while idx < values.len()
            invariant
                idx <= values@.len(),
                values@.len() <= 16,
                self.g@.len() == 16,
                forall|i: int| 0 <= i < idx ==> self.g@[i] == values@[i],
                forall|i: int| idx <= i < 16 ==> self.g@[i] == old(self).g@[i],
                Registers::same_but_g(*old(self), *self),
            decreases values@.len() - idx,
        {
            self.g.set(idx, values[idx]);
            idx = idx + 1;
        }
    }

    /// Decrement the two countdown timers for one frame, stopping at zero,
    /// and signal a beep iff the sound timer was nonzero before the
    /// decrement.
    pub fn update_timers(&mut self) -> (r: TimerSideEffect)
        ensures
            final(self).dt == timer_dec(old(self).dt),
            final(self).st == timer_dec(old(self).st),
            r == (if old(self).st > 0 {
                TimerSideEffect::Beep
            } else {
                TimerSideEffect::Quiet
            }),
            Registers::same_but_timers(*old(self), *final(self)),
    {
        if self.dt > 0 {
            self.dt = self.dt - 1;
        }
        if self.st > 0 {
            self.st = self.st - 1;
            TimerSideEffect::Beep
        } else {
            TimerSideEffect::Quiet
        }
    }
}

/// Bounds on the operand fields of a side effect, inherited from the
/// well-formedness of the instruction that produced it.
pub open spec fn effect_wf(res: Result<Option<SideEffect>, ExecError>) -> bool {
    match res {
        Ok(Some(SideEffect::Draw { pos, n, l })) => n < 16,
        Ok(Some(SideEffect::MemDump { dump_vals, l })) => dump_vals@.len() <= 16,
        Ok(Some(SideEffect::MemRead { count, l })) => 1 <= count <= 16,
        _ => true,
    }
}

/// How one instruction transforms the register state `pre` into `post` and
/// which side effect `res` it reports, consulting the keypad `kp` for the
/// skip-on-key instructions. This is the exact semantics of every opcode:
/// carry/borrow polarity, shift direction, program-counter policy (advance
/// by one word, by two on a taken skip, or set explicitly by jump, call and
/// return), and the wrap-around rules.
pub open spec fn apply_post(
    pre: Registers,
    inst: Instruction,
    kp: Keypad,
    post: Registers,
    res: Result<Option<SideEffect>, ExecError>,
) -> bool {
    let g0 = pre.g@;
    match inst {
        Instruction::Ignore => {
            &&& res == Ok::<Option<SideEffect>, ExecError>(None)
            &&& post.g@ == g0
            &&& post.vf == pre.vf
            &&& post.pc == pc_plus(pre.pc, 1)
            &&& post.sl == pre.sl
            &&& post.spst@ == pre.spst@
            &&& post.dt == pre.dt
            &&& post.st == pre.st
        },
        Instruction::ClearDisplay => {
            &&& res == Ok::<Option<SideEffect>, ExecError>(Some(SideEffect::ClearDisplay))
            &&& post.g@ == g0
            &&& post.vf == pre.vf
            &&& post.pc == pc_plus(pre.pc, 1)
            &&& post.sl == pre.sl
            &&& post.spst@ == pre.spst@
            &&& post.dt == pre.dt
            &&& post.st == pre.st
        },
        Instruction::ReturnSubroutine => {
            if pre.spst@.len() == 0 {
                &&& res == Err::<Option<SideEffect>, ExecError>(ExecError::EmptyCallStackReturn)
                &&& post.g@ == g0
                &&& post.vf == pre.vf
                &&& post.pc == pre.pc
                &&& post.sl == pre.sl
                &&& post.spst@ == pre.spst@
                &&& post.dt == pre.dt
                &&& post.st == pre.st
            } else {
                &&& res == Ok::<Option<SideEffect>, ExecError>(None)
                &&& post.g@ == g0
                &&& post.vf == pre.vf
                &&& post.pc == pc_plus(pre.spst@.last(), 1)
                &&& post.sl == pre.sl
                &&& post.spst@ == pre.spst@.drop_last()
                &&& post.dt == pre.dt
                &&& post.st == pre.st
            }
        },
        Instruction::JmpAddr(addr) => {
            &&& res == Ok::<Option<SideEffect>, ExecError>(None)
            &&& post.g@ == g0
            &&& post.vf == pre.vf
            &&& post.pc == addr
            &&& post.sl == pre.sl
            &&& post.spst@ == pre.spst@
            &&& post.dt == pre.dt
            &&& post.st == pre.st
        },
        Instruction::JmpAddrOffReg0(addr) => {
            &&& res == Ok::<Option<SideEffect>, ExecError>(None)
            &&& post.g@ == g0
            &&& post.vf == pre.vf
            &&& post.pc == g0[0] + addr
            &&& post.sl == pre.sl
            &&& post.spst@ == pre.spst@
            &&& post.dt == pre.dt
            &&& post.st == pre.st
        },
        Instruction::CallSub(addr) => {
            &&& res == Ok::<Option<SideEffect>, ExecError>(None)
            &&& post.g@ == g0
            &&& post.vf == pre.vf
            &&& post.pc == addr
            &&& post.sl == pre.sl
            &&& post.spst@ == pre.spst@.push(pre.pc)
            &&& post.dt == pre.dt
            &&& post.st == pre.st
        },
        Instruction::SkipEq { r, val } => {
            &&& res == Ok::<Option<SideEffect>, ExecError>(None)
            &&& post.g@ == g0
            &&& post.vf == pre.vf
            &&& post.pc == pc_plus(pre.pc, if g0[r as int] == val { 2 } else { 1 })
            &&& post.sl == pre.sl
            &&& post.spst@ == pre.spst@
            &&& post.dt == pre.dt
            &&& post.st == pre.st
        },
        Instruction::SkipNeq { r, val } => {
            &&& res == Ok::<Option<SideEffect>, ExecError>(None)
            &&& post.g@ == g0
            &&& post.vf == pre.vf
            &&& post.pc == pc_plus(pre.pc, if g0[r as int] != val { 2 } else { 1 })
            &&& post.sl == pre.sl
            &&& post.spst@ == pre.spst@
            &&& post.dt == pre.dt
            &&& post.st == pre.st
        },
        Instruction::SkipRegEq { r, f } => {
            &&& res == Ok::<Option<SideEffect>, ExecError>(None)
            &&& post.g@ == g0
            &&& post.vf == pre.vf
            &&& post.pc == pc_plus(pre.pc, if g0[r as int] == g0[f as int] { 2 } else { 1 })
            &&& post.sl == pre.sl
            &&& post.spst@ == pre.spst@
            &&& post.dt == pre.dt
            &&& post.st == pre.st
        },
        Instruction::SkipRegNeq { r, f } => {
            &&& res == Ok::<Option<SideEffect>, ExecError>(None)
            &&& post.g@ == g0
            &&& post.vf == pre.vf
            &&& post.pc == pc_plus(pre.pc, if g0[r as int] != g0[f as int] { 2 } else { 1 })
            &&& post.sl == pre.sl
            &&& post.spst@ == pre.spst@
            &&& post.dt == pre.dt
            &&& post.st == pre.st
        },
        Instruction::SetByte { r, val } => {
            &&& res == Ok::<Option<SideEffect>, ExecError>(None)
            &&& post.g@ == g0.update(r as int, val)
            &&& post.vf == pre.vf
            &&& post.pc == pc_plus(pre.pc, 1)
            &&& post.sl == pre.sl
            &&& post.spst@ == pre.spst@
            &&& post.dt == pre.dt
            &&& post.st == pre.st
        },
        Instruction::AddByte { r, val } => {
            &&& res == Ok::<Option<SideEffect>, ExecError>(None)
            &&& post.g@ == g0.update(r as int, wrap_add8(g0[r as int], val))
            &&& post.vf == pre.vf
            &&& post.pc == pc_plus(pre.pc, 1)
            &&& post.sl == pre.sl
            &&& post.spst@ == pre.spst@
            &&& post.dt == pre.dt
            &&& post.st == pre.st
        },
        Instruction::SetRegV { r, f } => {
            &&& res == Ok::<Option<SideEffect>, ExecError>(None)
            &&& post.g@ == g0.update(r as int, g0[f as int])
            &&& post.vf == pre.vf
            &&& post.pc == pc_plus(pre.pc, 1)
            &&& post.sl == pre.sl
            &&& post.spst@ == pre.spst@
            &&& post.dt == pre.dt
            &&& post.st == pre.st
        },
        Instruction::OrRegV { r, f } => {
            &&& res == Ok::<Option<SideEffect>, ExecError>(None)
            &&& post.g@ == g0.update(r as int, g0[r as int] | g0[f as int])
            &&& post.vf == pre.vf
            &&& post.pc == pc_plus(pre.pc, 1)
            &&& post.sl == pre.sl
            &&& post.spst@ == pre.spst@
            &&& post.dt == pre.dt
            &&& post.st == pre.st
        },
        Instruction::AndRegV { r, f } => {
            &&& res == Ok::<Option<SideEffect>, ExecError>(None)
            &&& post.g@ == g0.update(r as int, g0[r as int] & g0[f as int])
            &&& post.vf == pre.vf
            &&& post.pc == pc_plus(pre.pc, 1)
            &&& post.sl == pre.sl
            &&& post.spst@ == pre.spst@
            &&& post.dt == pre.dt
            &&& post.st == pre.st
        },
        Instruction::XorRegV { r, f } => {
            &&& res == Ok::<Option<SideEffect>, ExecError>(None)
            &&& post.g@ == g0.update(r as int, g0[r as int] ^ g0[f as int])
            &&& post.vf == pre.vf
            &&& post.pc == pc_plus(pre.pc, 1)
            &&& post.sl == pre.sl
            &&& post.spst@ == pre.spst@
            &&& post.dt == pre.dt
            &&& post.st == pre.st
        },
        Instruction::AddRegV { r, f } => {
            &&& res == Ok::<Option<SideEffect>, ExecError>(None)
            &&& post.g@ == g0.update(r as int, wrap_add8(g0[r as int], g0[f as int])).update(
                15,
                flag_byte(g0[r as int] + g0[f as int] >= 256),
            )
            &&& post.vf == (g0[r as int] + g0[f as int] >= 256)
            &&& post.pc == pc_plus(pre.pc, 1)
            &&& post.sl == pre.sl
            &&& post.spst@ == pre.spst@
            &&& post.dt == pre.dt
            &&& post.st == pre.st
        },
        Instruction::SubRegV { r, f } => {
            &&& res == Ok::<Option<SideEffect>, ExecError>(None)
            &&& post.g@ == g0.update(r as int, wrap_sub8(g0[r as int], g0[f as int])).update(
                15,
                flag_byte(g0[r as int] >= g0[f as int]),
            )
            &&& post.vf == (g0[r as int] >= g0[f as int])
            &&& post.pc == pc_plus(pre.pc, 1)
            &&& post.sl == pre.sl
            &&& post.spst@ == pre.spst@
            &&& post.dt == pre.dt
            &&& post.st == pre.st
        },
        Instruction::SubNRegV { r, f } => {
            &&& res == Ok::<Option<SideEffect>, ExecError>(None)
            &&& post.g@ == g0.update(r as int, wrap_sub8(g0[f as int], g0[r as int])).update(
                15,
                flag_byte(g0[f as int] >= g0[r as int]),
            )
            &&& post.vf == (g0[f as int] >= g0[r as int])
            &&& post.pc == pc_plus(pre.pc, 1)
            &&& post.sl == pre.sl
            &&& post.spst@ == pre.spst@
            &&& post.dt == pre.dt
            &&& post.st == pre.st
        },
        Instruction::ShrRegV { r } => {
            &&& res == Ok::<Option<SideEffect>, ExecError>(None)
            &&& post.g@ == g0.update(r as int, g0[r as int] >> 1u8).update(
                15,
                flag_byte((g0[r as int] & 1) == 1),
            )
            &&& post.vf == ((g0[r as int] & 1) == 1)
            &&& post.pc == pc_plus(pre.pc, 1)
            &&& post.sl == pre.sl
            &&& post.spst@ == pre.spst@
            &&& post.dt == pre.dt
            &&& post.st == pre.st
        },
        Instruction::ShlRegV { r } => {
            &&& res == Ok::<Option<SideEffect>, ExecError>(None)
            &&& post.g@ == g0.update(r as int, g0[r as int] << 1u8).update(
                15,
                flag_byte((g0[r as int] & 0x80) == 0x80),
            )
            &&& post.vf == ((g0[r as int] & 0x80) == 0x80)
            &&& post.pc == pc_plus(pre.pc, 1)
            &&& post.sl == pre.sl
            &&& post.spst@ == pre.spst@
            &&& post.dt == pre.dt
            &&& post.st == pre.st
        },
        Instruction::SetRegL(addr) => {
            &&& res == Ok::<Option<SideEffect>, ExecError>(None)
            &&& post.g@ == g0
            &&& post.vf == pre.vf
            &&& post.pc == pc_plus(pre.pc, 1)
            &&& post.sl == addr
            &&& post.spst@ == pre.spst@
            &&& post.dt == pre.dt
            &&& post.st == pre.st
        },
        Instruction::RndAnd { r, val } => {
            &&& res == Ok::<Option<SideEffect>, ExecError>(None)
            &&& post.g@.len() == 16
            &&& forall|i: int| 0 <= i < 16 && i != r ==> post.g@[i] == g0[i]
            &&& post.g@[r as int] & val == post.g@[r as int]
            &&& post.vf == pre.vf
            &&& post.pc == pc_plus(pre.pc, 1)
            &&& post.sl == pre.sl
            &&& post.spst@ == pre.spst@
            &&& post.dt == pre.dt
            &&& post.st == pre.st
        },
        Instruction::DispSpr { rp, n } => {
            &&& res == Ok::<Option<SideEffect>, ExecError>(
                Some(SideEffect::Draw { pos: (g0[rp.0 as int], g0[rp.1 as int]), n, l: pre.sl }),
            )
            &&& post.g@ == g0
            &&& post.vf == pre.vf
            &&& post.pc == pc_plus(pre.pc, 1)
            &&& post.sl == pre.sl
            &&& post.spst@ == pre.spst@
            &&& post.dt == pre.dt
            &&& post.st == pre.st
        },
        Instruction::SkipKeyPressed { r } => {
            &&& res == Ok::<Option<SideEffect>, ExecError>(None)
            &&& post.g@ == g0
            &&& post.vf == pre.vf
            &&& post.pc == pc_plus(pre.pc, if kp.pressed(g0[r as int]) { 2 } else { 1 })
            &&& post.sl == pre.sl
            &&& post.spst@ == pre.spst@
            &&& post.dt == pre.dt
            &&& post.st == pre.st
        },
        Instruction::SkipKeyReleased { r } => {
            &&& res == Ok::<Option<SideEffect>, ExecError>(None)
            &&& post.g@ == g0
            &&& post.vf == pre.vf
            &&& post.pc == pc_plus(pre.pc, if !kp.pressed(g0[r as int]) { 2 } else { 1 })
            &&& post.sl == pre.sl
            &&& post.spst@ == pre.spst@
            &&& post.dt == pre.dt
            &&& post.st == pre.st
        },
        Instruction::SetDelayToReg { r } => {
            &&& res == Ok::<Option<SideEffect>, ExecError>(None)
            &&& post.g@ == g0.update(r as int, pre.dt)
            &&& post.vf == pre.vf
            &&& post.pc == pc_plus(pre.pc, 1)
            &&& post.sl == pre.sl
            &&& post.spst@ == pre.spst@
            &&& post.dt == pre.dt
            &&& post.st == pre.st
        },
        Instruction::WaitKeyPress { r } => {
            &&& res == Ok::<Option<SideEffect>, ExecError>(Some(SideEffect::WaitKeyPress { r }))
            &&& post.g@ == g0
            &&& post.vf == pre.vf
            &&& post.pc == pc_plus(pre.pc, 1)
            &&& post.sl == pre.sl
            &&& post.spst@ == pre.spst@
            &&& post.dt == pre.dt
            &&& post.st == pre.st
        },
        Instruction::SetDelayFromReg { r } => {
            &&& res == Ok::<Option<SideEffect>, ExecError>(None)
            &&& post.g@ == g0
            &&& post.vf == pre.vf
            &&& post.pc == pc_plus(pre.pc, 1)
            &&& post.sl == pre.sl
            &&& post.spst@ == pre.spst@
            &&& post.dt == g0[r as int]
            &&& post.st == pre.st
        },
        Instruction::SetSoundFromReg { r } => {
            &&& res == Ok::<Option<SideEffect>, ExecError>(None)
            &&& post.g@ == g0
            &&& post.vf == pre.vf
            &&& post.pc == pc_plus(pre.pc, 1)
            &&& post.sl == pre.sl
            &&& post.spst@ == pre.spst@
            &&& post.dt == pre.dt
            &&& post.st == g0[r as int]
        },
        Instruction::AddRegL { r } => {
            &&& res == Ok::<Option<SideEffect>, ExecError>(None)
            &&& post.g@ == g0
            &&& post.vf == pre.vf
            &&& post.pc == pc_plus(pre.pc, 1)
            &&& post.sl == (pre.sl + g0[r as int]) % 0x10000
            &&& post.spst@ == pre.spst@
            &&& post.dt == pre.dt
            &&& post.st == pre.st
        },
        Instruction::SetRegLFontAddrFromReg { r } => {
            &&& res == Ok::<Option<SideEffect>, ExecError>(None)
            &&& post.g@ == g0
            &&& post.vf == pre.vf
            &&& post.pc == pc_plus(pre.pc, 1)
            &&& post.sl == 5 * g0[r as int]
            &&& post.spst@ == pre.spst@
            &&& post.dt == pre.dt
            &&& post.st == pre.st
        },
        Instruction::MemDump { endr } => {
            &&& res matches Ok(Some(SideEffect::MemDump { dump_vals, l }))
                && dump_vals@ == g0.subrange(0, endr as int + 1) && l == pre.sl
            &&& post.g@ == g0
            &&& post.vf == pre.vf
            &&& post.pc == pc_plus(pre.pc, 1)
            &&& post.sl == pre.sl
            &&& post.spst@ == pre.spst@
            &&& post.dt == pre.dt
            &&& post.st == pre.st
        },
        Instruction::MemRead { endr } => {
            &&& res == Ok::<Option<SideEffect>, ExecError>(
                Some(SideEffect::MemRead { count: (endr + 1) as u8, l: pre.sl }),
            )
            &&& post.g@ == g0
            &&& post.vf == pre.vf
            &&& post.pc == pc_plus(pre.pc, 1)
            &&& post.sl == pre.sl
            &&& post.spst@ == pre.spst@
            &&& post.dt == pre.dt
            &&& post.st == pre.st
        },
    }
}

/// The shift instructions in arithmetic terms: a right shift halves the
/// value and its flag is the low bit; a left shift doubles the value modulo
/// 256 and its flag is the high bit.
pub proof fn lemma_shift_arith(v: u8)
    ensures
        v >> 1u8 == v / 2,
        (v << 1u8) == (2 * v) % 256,
        ((v & 1) == 1) == (v % 2 == 1),
        ((v & 0x80) == 0x80) == (v >= 128),
{
    assert(v >> 1u8 == v / 2) by (bit_vector);
    assert((v << 1u8) == (2 * v) % 256) by (bit_vector);
    assert(((v & 1) == 1) == (v % 2 == 1)) by (bit_vector);
    assert(((v & 0x80) == 0x80) == (v >= 128)) by (bit_vector);
}

/// A `call` followed immediately by `return` leaves the program counter one
/// instruction word past the call site and the call stack exactly as it was
/// before the call; the registers, index register and timers are untouched
/// by the pair.
pub proof fn lemma_call_then_return(
    r0: Registers,
    r1: Registers,
    r2: Registers,
    addr: u16,
    kp1: Keypad,
    kp2: Keypad,
    e1: Result<Option<SideEffect>, ExecError>,
    e2: Result<Option<SideEffect>, ExecError>,
)
    requires
        apply_post(r0, Instruction::CallSub(addr), kp1, r1, e1),
        apply_post(r1, Instruction::ReturnSubroutine, kp2, r2, e2),
    ensures
        e2 == Ok::<Option<SideEffect>, ExecError>(None),
        r2.pc == pc_plus(r0.pc, 1),
        r0.pc + 2 < 0x10000 ==> r2.pc == r0.pc + 2,
        r2.spst@ == r0.spst@,
        r2.g@ == r0.g@,
        r2.vf == r0.vf,
        r2.sl == r0.sl,
        r2.dt == r0.dt,
        r2.st == r0.st,
{
    assert(r1.spst@.len() > 0);
    assert(r1.spst@.last() == r0.pc);
    assert(r1.spst@.drop_last() =~= r0.spst@);
}

/// Relies on rand::random: one byte drawn from the thread-local random
/// number generator. Nothing is promised of its value.
#[verifier::external_body]
fn random_byte() -> u8 {
    rand::random::<u8>()
}

impl Registers {
    /// Apply one decoded instruction to the register state, consulting the
    /// keypad for the skip-on-key instructions, and report the side effect,
    /// if any, that the frame driver must perform. A return-from-subroutine
    /// on an empty call stack is reported as an error and changes nothing.
    pub fn update_registers(&mut self, instruction: Instruction, keypad: &Keypad) -> (res: Result<
        Option<SideEffect>,
        ExecError,
    >)
        requires
            old(self).wf(),
            inst_wf(instruction),
            keypad.wf(),
        ensures
            final(self).wf(),
            apply_post(*old(self), instruction, *keypad, *final(self), res),
            effect_wf(res),
    {
        match instruction {
            Instruction::Ignore => {
                self.increase_pc(1);
                Ok(None)
            },
            Instruction::ClearDisplay => {
                self.increase_pc(1);
                Ok(Some(SideEffect::ClearDisplay))
            },
            Instruction::ReturnSubroutine => {
                if self.spst.len() == 0 {
                    return Err(ExecError::EmptyCallStackReturn);
                }
                let new_pc = self.spst.pop().unwrap();
                self.set_pc(new_pc);
                self.increase_pc(1);
                Ok(None)
            },
            Instruction::JmpAddr(addr) => {
                self.set_pc(addr);
                Ok(None)
            },
            Instruction::JmpAddrOffReg0(addr) => {
                let base = self.general_register(0);
                self.set_pc(base as u16 + addr);
                Ok(None)
            },
            Instruction::CallSub(addr) => {
                let here = self.get_pc();
                self.spst.push(here);
                self.set_pc(addr);
                Ok(None)
            },
            Instruction::SkipEq { r, val } => {
                let inc: u16 = if self.general_register(r) == val {
                    2
                } else {
                    1
                };
                self.increase_pc(inc);
                Ok(None)
            },
            Instruction::SkipNeq { r, val } => {
                let inc: u16 = if self.general_register(r) != val {
                    2
                } else {
                    1
                };
                self.increase_pc(inc);
                Ok(None)
            },
            Instruction::SkipRegEq { r, f } => {
                let inc: u16 = if self.general_register(r) == self.general_register(f) {
                    2
                } else {
                    1
                };
                self.increase_pc(inc);
                Ok(None)
            },
            Instruction::SkipRegNeq { r, f } => {
                let inc: u16 = if self.general_register(r) != self.general_register(f) {
                    2
                } else {
                    1
                };
                self.increase_pc(inc);
                Ok(None)
            },
            Instruction::SetByte { r, val } => {
                self.g.set(r as usize, val);
                self.increase_pc(1);
                Ok(None)
            },
            Instruction::AddByte { r, val } => {
                let a = self.general_register(r);
                let sum: u16 = a as u16 + val as u16;
                self.g.set(r as usize, (sum % 256) as u8);
                self.increase_pc(1);
                Ok(None)
            },
            Instruction::SetRegV { r, f } => {
                let v = self.general_register(f);
                self.g.set(r as usize, v);
                self.increase_pc(1);
                Ok(None)
            },
            Instruction::OrRegV { r, f } => {
                let v = self.general_register(r) | self.general_register(f);
                self.g.set(r as usize, v);
                self.increase_pc(1);
                Ok(None)
            },
            Instruction::AndRegV { r, f } => {
                let v = self.general_register(r) & self.general_register(f);
                self.g.set(r as usize, v);
                self.increase_pc(1);
                Ok(None)
            },
            Instruction::XorRegV { r, f } => {
                let v = self.general_register(r) ^ self.general_register(f);
                self.g.set(r as usize, v);
                self.increase_pc(1);
                Ok(None)
            },
            Instruction::AddRegV { r, f } => {
                let a = self.general_register(r);
                let b = self.general_register(f);
                let sum: u16 = a as u16 + b as u16;
                self.g.set(r as usize, (sum % 256) as u8);
                self.update_vf(sum >= 256);
                self.increase_pc(1);
                Ok(None)
            },
            Instruction::SubRegV { r, f } => {
                let a = self.general_register(r);
                let b = self.general_register(f);
                let v: u8 = if a >= b {
                    a - b
                } else {
                    (a as u16 + 256 - b as u16) as u8
                };
                self.g.set(r as usize, v);
                self.update_vf(a >= b);
                self.increase_pc(1);
                Ok(None)
            },
            Instruction::SubNRegV { r, f } => {
                let a = self.general_register(r);
                let b = self.general_register(f);
                let v: u8 = if b >= a {
                    b - a
                } else {
                    (b as u16 + 256 - a as u16) as u8
                };
                self.g.set(r as usize, v);
                self.update_vf(b >= a);
                self.increase_pc(1);
                Ok(None)
            },
            Instruction::ShrRegV { r } => {
                let a = self.general_register(r);
                self.g.set(r as usize, a >> 1u8);
                self.update_vf((a & 0b01) == 0b01);
                self.increase_pc(1);
                Ok(None)
            },
            Instruction::ShlRegV { r } => {
                let a = self.general_register(r);
                self.g.set(r as usize, a << 1u8);
                self.update_vf((a & 0x80) == 0x80);
                self.increase_pc(1);
                Ok(None)
            },
            Instruction::SetRegL(addr) => {
                self.sl = addr;
                self.increase_pc(1);
                Ok(None)
            },
            Instruction::RndAnd { r, val } => {
                let b = random_byte();
                let v = b & val;
                proof {
                    assert((b & val) & val == b & val) by (bit_vector);
                }
                self.g.set(r as usize, v);
                self.increase_pc(1);
                Ok(None)
            },
            Instruction::DispSpr { rp, n } => {
                let px = self.general_register(rp.0);
                let py = self.general_register(rp.1);
                let l = self.sl;
                self.increase_pc(1);
                Ok(Some(SideEffect::Draw { pos: (px, py), n, l }))
            },
            Instruction::SkipKeyPressed { r } => {
                let key = self.general_register(r);
                let inc: u16 = if keypad.is_pressed(key) {
                    2
                } else {
                    1
                };
                self.increase_pc(inc);
                Ok(None)
            },
            Instruction::SkipKeyReleased { r } => {
                let key = self.general_register(r);
                let inc: u16 = if !keypad.is_pressed(key) {
                    2
                } else {
                    1
                };
                self.increase_pc(inc);
                Ok(None)
            },
            Instruction::SetDelayToReg { r } => {
                let v = self.dt;
                self.g.set(r as usize, v);
                self.increase_pc(1);
                Ok(None)
            },
            Instruction::WaitKeyPress { r } => {
                self.increase_pc(1);
                Ok(Some(SideEffect::WaitKeyPress { r }))
            },
            Instruction::SetDelayFromReg { r } => {
                self.dt = self.general_register(r);
                self.increase_pc(1);
                Ok(None)
            },
            Instruction::SetSoundFromReg { r } => {
                self.st = self.general_register(r);
                self.increase_pc(1);
                Ok(None)
            },
            Instruction::AddRegL { r } => {
                let a = self.general_register(r);
                let wide: u32 = self.sl as u32 + a as u32;
                self.sl = (wide % 0x10000) as u16;
                self.increase_pc(1);
                Ok(None)
            },
            Instruction::SetRegLFontAddrFromReg { r } => {
                let a = self.general_register(r);
                self.sl = (a as u16) * 5;
                self.increase_pc(1);
                Ok(None)
            },
            Instruction::MemDump { endr } => {
                let mut dump_vals: Vec<u8> = Vec::new();
                let mut i: usize = 0;
                while i < endr as usize + 1
                    invariant
                        self.wf(),
                        endr < 16,
                        i <= endr as usize + 1,
                        dump_vals@.len() == i,
                        forall|k: int| 0 <= k < i ==> dump_vals@[k] == self.g@[k],
                    decreases endr as int + 1 - i,
                {
                    let v = self.g[i];
                    dump_vals.push(v);
                    i = i + 1;
                }
                proof {
                    assert(dump_vals@ =~= self.g@.subrange(0, endr as int + 1));
                }
                let l = self.sl;
                self.increase_pc(1);
                Ok(Some(SideEffect::MemDump { dump_vals, l }))
            },
            Instruction::MemRead { endr } => {
                let l = self.sl;
                self.increase_pc(1);
                Ok(Some(SideEffect::MemRead { count: endr + 1, l }))
            },
        }
    }
}

} // verus!

