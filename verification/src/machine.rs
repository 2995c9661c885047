//! The frame driver's state and decision logic: once per frame the keypad
//! is reset and sampled, a pending key-wait is resolved, one instruction is
//! fetched, decoded, executed and its side effect dispatched to memory and
//! the display buffer, and the timers are decremented — in exactly that
//! order. Anything the machine cannot do itself (reading a character,
//! rendering, beeping) is handed to the caller through the frame outcome.

use vstd::prelude::*;

use crate::isa;
use crate::keypad::Keypad;
use crate::keypad::key_of_char;
use crate::memory::Memory;
use crate::memory::loaded_from;
use crate::register::ExecError;
use crate::register::Registers;
use crate::register::SideEffect;
use crate::register::TimerSideEffect;
use crate::register::apply_post;
use crate::register::effect_wf;
use crate::register::flag_byte;
use crate::register::timer_dec;
use crate::screen::DrawMessage;
use crate::screen::Screen;
use crate::screen::blit;
use crate::screen::blit_erases;
use crate::screen::msg_wf;
use crate::screen::sprite_flips;

verus! {

/// The machine's run-state: executing normally, or suspended until a key
/// press is observed and stored into the target register. Timers still tick
/// while the machine waits.
#[derive(Clone, Copy, Debug, PartialEq, Eq, Structural)]
pub enum MachineState {
    /// Fetch and execute proceed.
    Normal,
    /// Execution is suspended until a key press arrives; the key value is
    /// then stored in register `r`.
    WaitKeyPress { r: u8 },
}

/// Why the run loop halted: the offending address, and for an unrecognized
/// opcode the raw instruction bytes, are reported for diagnosis.
#[derive(Clone, Copy, Debug, PartialEq, Eq, Structural)]
pub enum HaltInfo {
    /// The word at `addr` matches no defined encoding.
    UnrecognizedOpcode { addr: u16, b0: u8, b1: u8 },
    /// A fetch, read or write reached beyond the address space, or the
    /// program counter broke its even-address invariant.
    OutOfRangeAccess { addr: u16 },
    /// A return-from-subroutine was executed with an empty call stack.
    EmptyCallStackReturn,
}

/// Everything one frame asks of the outside world: pixel transitions to
/// render, whether the display was cleared, whether to beep, and whether
/// the run loop must halt.
pub struct FrameOutcome {
    /// The pixel transitions of this frame's draw, if any.
    pub draws: Vec<DrawMessage>,
    /// The display buffer was cleared this frame.
    pub cleared: bool,
    /// The sound timer was nonzero before this frame's decrement.
    pub beep: bool,
    /// The fatal condition that ends the run loop, if one occurred.
    pub halt: Option<HaltInfo>,
}

/// The whole device state: memory, registers, display buffer, keypad and
/// run-state, owned exclusively by the frame driver.
pub struct Machine {
    /// The 4096-byte address space.
    pub memory: Memory,
    /// The register file, program counter, call stack and timers.
    pub registers: Registers,
    /// The 64x32 display buffer.
    pub screen: Screen,
    /// The 16-key keypad state.
    pub keypad: Keypad,
    /// The run-state: normal, or waiting for a key.
    pub state: MachineState,
}

/// The key value this frame's input character maps to, if any.
pub open spec fn key_of_input(input: Option<char>) -> Option<u8> {
    match input {
        Some(c) => key_of_char(c),
        None => None,
    }
}

/// The keypad at the end of a frame: reset, then exactly this frame's
/// recognized input key pressed.
pub open spec fn keypad_sampled(kp: Keypad, input: Option<char>) -> bool {
    &&& kp.keys@.len() == 16
    &&& forall|k: int| 0 <= k < 16 ==> kp.keys@[k] == (key_of_input(input) == Some(k as u8))
}

/// The register file after resolving a pending key-wait: if the machine was
/// waiting and a key arrived, the key value is stored in the target register
/// (an index beyond the register file is ignored, as in every register
/// store).
pub open spec fn resolved_g(pre: Machine, input: Option<char>) -> Seq<u8> {
    match (pre.state, key_of_input(input)) {
        (MachineState::WaitKeyPress { r }, Some(k)) => if r < 16 {
            pre.registers.g@.update(r as int, k)
        } else {
            pre.registers.g@
        },
        _ => pre.registers.g@,
    }
}

/// The run-state after resolving a pending key-wait.
pub open spec fn resolved_state(pre: Machine, input: Option<char>) -> MachineState {
    match (pre.state, key_of_input(input)) {
        (MachineState::WaitKeyPress { r }, Some(k)) => MachineState::Normal,
        _ => pre.state,
    }
}

/// The register state at the fetch: the key-wait resolution applied, all
/// other register fields untouched.
pub open spec fn wait_resolved(pre: Machine, input: Option<char>, regs1: Registers) -> bool {
    &&& regs1.g@ == resolved_g(pre, input)
    &&& Registers::same_but_g(pre.registers, regs1)
}

/// Two register states with equal contents, field by field.
pub open spec fn regs_eq(a: Registers, b: Registers) -> bool {
    &&& a.g@ == b.g@
    &&& a.sl == b.sl
    &&& a.vf == b.vf
    &&& a.pc == b.pc
    &&& a.spst@ == b.spst@
    &&& a.dt == b.dt
    &&& a.st == b.st
}

/// The registers after the frame's timer decrement, relative to their state
/// right after execution.
pub open spec fn regs_after_timers(regs2: Registers, post: Registers) -> bool {
    &&& post.g@ == regs2.g@
    &&& post.vf == regs2.vf
    &&& post.pc == regs2.pc
    &&& post.sl == regs2.sl
    &&& post.spst@ == regs2.spst@
    &&& post.dt == timer_dec(regs2.dt)
    &&& post.st == timer_dec(regs2.st)
}

/// A frame that halted before the instruction executed: the machine is left
/// exactly as it stood at the fetch — memory, screen and registers
/// unchanged (but for the resolved key-wait), no timer decrement, nothing
/// to render and no beep.
pub open spec fn halted_frame(
    pre: Machine,
    input: Option<char>,
    post: Machine,
    out: FrameOutcome,
    h: HaltInfo,
) -> bool {
    &&& out.halt == Some(h)
    &&& out.draws@.len() == 0
    &&& !out.cleared
    &&& !out.beep
    &&& post.memory.bytes@ == pre.memory.bytes@
    &&& post.screen.cells@ == pre.screen.cells@
    &&& post.state == MachineState::Normal
    &&& post.registers.g@ == resolved_g(pre, input)
    &&& Registers::same_but_g(pre.registers, post.registers)
}

/// A frame that halted while dispatching a side effect: the instruction has
/// executed (`regs2`), but memory and screen are untouched and the timers
/// did not tick.
pub open spec fn halted_dispatch(
    pre: Machine,
    regs2: Registers,
    post: Machine,
    out: FrameOutcome,
    h: HaltInfo,
) -> bool {
    &&& out.halt == Some(h)
    &&& out.draws@.len() == 0
    &&& !out.cleared
    &&& !out.beep
    &&& post.memory.bytes@ == pre.memory.bytes@
    &&& post.screen.cells@ == pre.screen.cells@
    &&& post.state == MachineState::Normal
    &&& regs_eq(post.registers, regs2)
}

/// How the frame driver dispatches the side effect of one executed
/// instruction: what it does to memory, the display buffer, the registers
/// (collision flag, bulk load, timer decrement), the run-state, and what it
/// reports in the frame outcome. An out-of-range span halts the frame
/// whole: nothing is read or written.
pub open spec fn dispatch_post(
    pre: Machine,
    regs2: Registers,
    eff: Result<Option<SideEffect>, ExecError>,
    post: Machine,
    out: FrameOutcome,
) -> bool {
    match eff {
        Err(e) => halted_dispatch(pre, regs2, post, out, HaltInfo::EmptyCallStackReturn),
        Ok(None) => {
            &&& out.halt is None
            &&& out.draws@.len() == 0
            &&& !out.cleared
            &&& out.beep == (regs2.st > 0)
            &&& post.memory.bytes@ == pre.memory.bytes@
            &&& post.screen.cells@ == pre.screen.cells@
            &&& post.state == MachineState::Normal
            &&& regs_after_timers(regs2, post.registers)
        },
        Ok(Some(SideEffect::ClearDisplay)) => {
            &&& out.halt is None
            &&& out.draws@.len() == 0
            &&& out.cleared
            &&& out.beep == (regs2.st > 0)
            &&& post.memory.bytes@ == pre.memory.bytes@
            &&& post.screen.cells@.len() == 2048
            &&& forall|i: int| 0 <= i < 2048 ==> !post.screen.cells@[i]
            &&& post.state == MachineState::Normal
            &&& regs_after_timers(regs2, post.registers)
        },
        Ok(Some(SideEffect::Draw { pos, n, l })) => {
            if l + n <= 4096 {
                let sprite = pre.memory.bytes@.subrange(l as int, l as int + n as int);
                let x0 = (pos.0 % 64) as int;
                let y0 = (pos.1 % 32) as int;
                &&& out.halt is None
                &&& !out.cleared
                &&& out.beep == (regs2.st > 0)
                &&& post.memory.bytes@ == pre.memory.bytes@
                &&& post.screen.cells@ == blit(pre.screen.cells@, x0, y0, sprite)
                &&& post.state == MachineState::Normal
                &&& post.registers.g@ == regs2.g@.update(
                    15,
                    flag_byte(blit_erases(pre.screen.cells@, x0, y0, sprite)),
                )
                &&& post.registers.vf == blit_erases(pre.screen.cells@, x0, y0, sprite)
                &&& post.registers.pc == regs2.pc
                &&& post.registers.sl == regs2.sl
                &&& post.registers.spst@ == regs2.spst@
                &&& post.registers.dt == timer_dec(regs2.dt)
                &&& post.registers.st == timer_dec(regs2.st)
                &&& forall|k: int|
                    0 <= k < out.draws@.len() ==> msg_wf(
                        pre.screen.cells@,
                        x0,
                        y0,
                        sprite,
                        out.draws@[k],
                    )
                &&& forall|x: int, y: int|
                    0 <= x < 64 && 0 <= y < 32 && #[trigger] sprite_flips(sprite, x0, y0, x, y)
                        ==> exists|k: int|
                        0 <= k < out.draws@.len() && (#[trigger] out.draws@[k]).pos == (
                            x as u8,
                            y as u8,
                        )
                &&& forall|k1: int, k2: int|
                    0 <= k1 < k2 < out.draws@.len() ==> out.draws@[k1].pos != out.draws@[k2].pos
            } else {
                halted_dispatch(pre, regs2, post, out, HaltInfo::OutOfRangeAccess { addr: l })
            }
        },
        Ok(Some(SideEffect::MemDump { dump_vals, l })) => {
            if l + dump_vals@.len() <= 4096 {
                &&& out.halt is None
                &&& out.draws@.len() == 0
                &&& !out.cleared
                &&& out.beep == (regs2.st > 0)
                &&& post.memory.bytes@.len() == 4096
                &&& forall|i: int|
                    0 <= i < 4096 ==> post.memory.bytes@[i] == if l <= i < l + dump_vals@.len() {
                        dump_vals@[i - l]
                    } else {
                        pre.memory.bytes@[i]
                    }
                &&& post.screen.cells@ == pre.screen.cells@
                &&& post.state == MachineState::Normal
                &&& regs_after_timers(regs2, post.registers)
            } else {
                halted_dispatch(pre, regs2, post, out, HaltInfo::OutOfRangeAccess { addr: l })
            }
        },
        Ok(Some(SideEffect::MemRead { count, l })) => {
            if l + count <= 4096 {
                &&& out.halt is None
                &&& out.draws@.len() == 0
                &&& !out.cleared
                &&& out.beep == (regs2.st > 0)
                &&& post.memory.bytes@ == pre.memory.bytes@
                &&& post.screen.cells@ == pre.screen.cells@
                &&& post.state == MachineState::Normal
                &&& post.registers.g@.len() == 16
                &&& forall|i: int|
                    0 <= i < count ==> post.registers.g@[i] == pre.memory.bytes@[l + i]
                &&& forall|i: int| count <= i < 16 ==> post.registers.g@[i] == regs2.g@[i]
                &&& post.registers.vf == regs2.vf
                &&& post.registers.pc == regs2.pc
                &&& post.registers.sl == regs2.sl
                &&& post.registers.spst@ == regs2.spst@
                &&& post.registers.dt == timer_dec(regs2.dt)
                &&& post.registers.st == timer_dec(regs2.st)
            } else {
                halted_dispatch(pre, regs2, post, out, HaltInfo::OutOfRangeAccess { addr: l })
            }
        },
        Ok(Some(SideEffect::WaitKeyPress { r })) => {
            &&& out.halt is None
            &&& out.draws@.len() == 0
            &&& !out.cleared
            &&& out.beep == (regs2.st > 0)
            &&& post.memory.bytes@ == pre.memory.bytes@
            &&& post.screen.cells@ == pre.screen.cells@
            &&& post.state == MachineState::WaitKeyPress { r }
            &&& regs_after_timers(regs2, post.registers)
        },
    }
}

/// Everything one frame does, in order: the keypad is reset and the input
/// sampled; a pending key-wait is resolved; if the machine is then waiting,
/// only the timers tick; otherwise one instruction is fetched, decoded,
/// executed and dispatched, and the timers tick. A fetch outside the
/// address space or at an odd program counter, a word matching no encoding,
/// a return on an empty call stack and an out-of-range span all halt the
/// frame, reporting the address
/// (and for an unrecognized word its raw bytes) and leaving the register
/// state as it stood immediately before the fetch.
pub open spec fn frame_post(
    pre: Machine,
    input: Option<char>,
    post: Machine,
    out: FrameOutcome,
) -> bool {
    &&& keypad_sampled(post.keypad, input)
    &&& match resolved_state(pre, input) {
        MachineState::WaitKeyPress { r } => {
            &&& out.halt is None
            &&& out.draws@.len() == 0
            &&& !out.cleared
            &&& out.beep == (pre.registers.st > 0)
            &&& post.memory.bytes@ == pre.memory.bytes@
            &&& post.screen.cells@ == pre.screen.cells@
            &&& post.state == MachineState::WaitKeyPress { r }
            &&& post.registers.g@ == resolved_g(pre, input)
            &&& post.registers.vf == pre.registers.vf
            &&& post.registers.pc == pre.registers.pc
            &&& post.registers.sl == pre.registers.sl
            &&& post.registers.spst@ == pre.registers.spst@
            &&& post.registers.dt == timer_dec(pre.registers.dt)
            &&& post.registers.st == timer_dec(pre.registers.st)
        },
        MachineState::Normal => {
            let pc0 = pre.registers.pc;
            if pc0 % 2 != 0 || pc0 + 1 >= 4096 {
                halted_frame(pre, input, post, out, HaltInfo::OutOfRangeAccess { addr: pc0 })
            } else {
                let b0 = pre.memory.bytes@[pc0 as int];
                let b1 = pre.memory.bytes@[pc0 as int + 1];
                match isa::spec_decode(b0, b1) {
                    None => halted_frame(
                        pre,
                        input,
                        post,
                        out,
                        HaltInfo::UnrecognizedOpcode { addr: pc0, b0, b1 },
                    ),
                    Some(inst) => exists|
                        regs1: Registers,
                        regs2: Registers,
                        eff: Result<Option<SideEffect>, ExecError>,
                    |
                        {
                            &&& wait_resolved(pre, input, regs1)
                            &&& #[trigger] apply_post(regs1, inst, post.keypad, regs2, eff)
                            &&& dispatch_post(pre, regs2, eff, post, out)
                        },
                }
            }
        },
    }
}

impl Machine {
    /// Well-formedness of every component.
    pub open spec fn wf(&self) -> bool {
        &&& self.memory.wf()
        &&& self.registers.wf()
        &&& self.screen.wf()
        &&& self.keypad.wf()
    }

    /// Build a machine at start from a program blob: memory loaded with the
    /// font and the program, registers at their initial values, the display
    /// blank, no key pressed, the run-state normal. A blob too large for
    /// the address space is rejected.
    pub fn new(rom: &Vec<u8>) -> (r: Option<Machine>)
        ensures
            r is Some <==> rom@.len() <= 3584,
            r matches Some(m) ==> {
                &&& m.wf()
                &&& loaded_from(m.memory.bytes@, rom@)
                &&& forall|i: int| 0 <= i < 16 ==> m.registers.g@[i] == 0u8
                &&& m.registers.sl == 0
                &&& !m.registers.vf
                &&& m.registers.pc == 0x200
                &&& m.registers.spst@.len() == 0
                &&& m.registers.dt == 0
                &&& m.registers.st == 0
                &&& forall|i: int| 0 <= i < 2048 ==> !m.screen.cells@[i]
                &&& forall|k: int| 0 <= k < 16 ==> !m.keypad.keys@[k]
                &&& m.state == MachineState::Normal
            },
    {
        match Memory::new(rom) {
            Some(memory) => Some(
                Machine {
                    memory,
                    registers: Registers::new(),
                    screen: Screen::new(),
                    keypad: Keypad::new(),
                    state: MachineState::Normal,
                },
            ),
            None => None,
        }
    }
}

/// Dispatch the side effect of one executed instruction to memory, the
/// display buffer, the registers and the run-state, then decrement the
/// timers; an out-of-range span halts the frame whole instead. `pre` is the
/// machine as it stood at this frame's fetch: its memory and screen are the
/// ones the effect operates on.
#[verifier::rlimit(50)]
fn dispatch_effect(
    m: &mut Machine,
    eff: Result<Option<SideEffect>, ExecError>,
    Ghost(pre): Ghost<Machine>,
) -> (out: FrameOutcome)
    requires
        old(m).wf(),
        old(m).state == MachineState::Normal,
        effect_wf(eff),
        old(m).memory.bytes@ == pre.memory.bytes@,
        old(m).screen.cells@ == pre.screen.cells@,
    ensures
        final(m).wf(),
        final(m).keypad.keys@ == old(m).keypad.keys@,
        dispatch_post(pre, old(m).registers, eff, *final(m), out),
{
    let ghost regs2 = m.registers;
    match eff {
        Err(_) => {
            FrameOutcome {
                draws: Vec::new(),
                cleared: false,
                beep: false,
                halt: Some(HaltInfo::EmptyCallStackReturn),
            }
        },
        Ok(None) => {
            let t = m.registers.update_timers();
            let beep = match t {
                TimerSideEffect::Beep => true,
                TimerSideEffect::Quiet => false,
            };
            FrameOutcome { draws: Vec::new(), cleared: false, beep, halt: None }
        },
        Ok(Some(SideEffect::ClearDisplay)) => {
            m.screen.clear();
            let t = m.registers.update_timers();
            let beep = match t {
                TimerSideEffect::Beep => true,
                TimerSideEffect::Quiet => false,
            };
            FrameOutcome { draws: Vec::new(), cleared: true, beep, halt: None }
        },
        Ok(Some(SideEffect::Draw { pos, n, l })) => {
            match m.memory.get_data_bytes(l as usize, n as usize) {
                Some(sprite) => {
                    let (draws, any_erased) = m.screen.draw(pos, &sprite);
                    m.registers.update_vf(any_erased);
                    let t = m.registers.update_timers();
                    let beep = match t {
                        TimerSideEffect::Beep => true,
                        TimerSideEffect::Quiet => false,
                    };
                    FrameOutcome { draws, cleared: false, beep, halt: None }
                },
                None => FrameOutcome {
                    draws: Vec::new(),
                    cleared: false,
                    beep: false,
                    halt: Some(HaltInfo::OutOfRangeAccess { addr: l }),
                },
            }
        },
        Ok(Some(SideEffect::MemDump { dump_vals, l })) => {
            if m.memory.store_from(&dump_vals, l) {
                let t = m.registers.update_timers();
                let beep = match t {
                    TimerSideEffect::Beep => true,
                    TimerSideEffect::Quiet => false,
                };
                FrameOutcome { draws: Vec::new(), cleared: false, beep, halt: None }
            } else {
                FrameOutcome {
                    draws: Vec::new(),
                    cleared: false,
                    beep: false,
                    halt: Some(HaltInfo::OutOfRangeAccess { addr: l }),
                }
            }
        },
        Ok(Some(SideEffect::MemRead { count, l })) => {
            match m.memory.get_data_bytes(l as usize, count as usize) {
                Some(vals) => {
                    m.registers.store_from_v0(&vals);
                    let t = m.registers.update_timers();
                    let beep = match t {
                        TimerSideEffect::Beep => true,
                        TimerSideEffect::Quiet => false,
                    };
                    proof {
                        assert forall|i: int| 0 <= i < count implies m.registers.g@[i]
                            == pre.memory.bytes@[l + i] by {
                            assert(vals@[i] == pre.memory.bytes@[l + i]);
                        }
                    }
                    FrameOutcome { draws: Vec::new(), cleared: false, beep, halt: None }
                },
                None => FrameOutcome {
                    draws: Vec::new(),
                    cleared: false,
                    beep: false,
                    halt: Some(HaltInfo::OutOfRangeAccess { addr: l }),
                },
            }
        },
        Ok(Some(SideEffect::WaitKeyPress { r })) => {
            m.state = MachineState::WaitKeyPress { r };
            let t = m.registers.update_timers();
            let beep = match t {
                TimerSideEffect::Beep => true,
                TimerSideEffect::Quiet => false,
            };
            FrameOutcome { draws: Vec::new(), cleared: false, beep, halt: None }
        },
    }
}

/// Run one frame of the machine against this frame's input character, if
/// any. See `frame_post` for everything this does and in which order.
pub fn frame_step(m: &mut Machine, input: Option<char>) -> (out: FrameOutcome)
    requires
        old(m).wf(),
    ensures
        final(m).wf(),
        frame_post(*old(m), input, *final(m), out),
{
    let ghost pre = *old(m);
    m.keypad.reset_all();
    let keyval: Option<u8> = match input {
        Some(c) => m.keypad.set_press(c),
        None => None,
    };
    proof {
        assert(keypad_sampled(m.keypad, input));
    }
    if let MachineState::WaitKeyPress { r } = m.state {
        if let Some(k) = keyval {
            m.registers.update_general_register(r, k);
            m.state = MachineState::Normal;
        }
    }
    proof {
        assert(m.registers.g@ == resolved_g(pre, input));
        assert(Registers::same_but_g(pre.registers, m.registers));
        assert(m.state == resolved_state(pre, input));
    }
    if let MachineState::WaitKeyPress { r: _wr } = m.state {
        let t = m.registers.update_timers();
        let beep = match t {
            TimerSideEffect::Beep => true,
            TimerSideEffect::Quiet => false,
        };
        return FrameOutcome { draws: Vec::new(), cleared: false, beep, halt: None };
    }
    let pc0 = m.registers.get_pc();
    let ghost regs1 = m.registers;
    if pc0 % 2 != 0 {
        return FrameOutcome {
            draws: Vec::new(),
            cleared: false,
            beep: false,
            halt: Some(HaltInfo::OutOfRangeAccess { addr: pc0 }),
        };
    }
    let (b0, b1) = match m.memory.fetch(pc0) {
        Some(bb) => bb,
        None => {
            return FrameOutcome {
                draws: Vec::new(),
                cleared: false,
                beep: false,
                halt: Some(HaltInfo::OutOfRangeAccess { addr: pc0 }),
            };
        },
    };
    let inst = match isa::parse_instruction(&[b0, b1]) {
        Some(i) => i,
        None => {
            return FrameOutcome {
                draws: Vec::new(),
                cleared: false,
                beep: false,
                halt: Some(HaltInfo::UnrecognizedOpcode { addr: pc0, b0, b1 }),
            };
        },
    };
    proof {
        isa::lemma_decode_wf(b0, b1);
    }
    let eff = m.registers.update_registers(inst, &m.keypad);
    let ghost regs2 = m.registers;
    let ghost geff = eff;
    let out = dispatch_effect(m, eff, Ghost(pre));
    proof {
        assert(apply_post(regs1, inst, m.keypad, regs2, geff));
        assert(dispatch_post(pre, regs2, geff, *m, out));
    }
    out
}

} // verus!
