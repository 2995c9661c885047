//! Instruction set: the shape of every decoded CHIP-8 instruction and the
//! decoder that turns a 2-byte instruction word into one.

use vstd::prelude::*;

verus! {

/// A decoded CHIP-8 instruction. Every variant carries only the operand
/// fields it needs: a register index (a nibble, 0..=15), a literal byte,
/// a 12-bit address, or a nibble count.
#[derive(Clone, Copy, Debug)]
pub enum Instruction {
    /// 0x0nnn machine-code call, other than 0x00E0/0x00EE: a documented no-op.
    Ignore,
    /// 0x00E0: clear the display.
    ClearDisplay,
    /// 0x00EE: return from a subroutine (pop the call stack).
    ReturnSubroutine,
    /// 0x1nnn: jump to address nnn.
    JmpAddr(u16),
    /// 0xBnnn: jump to address nnn + V0.
    JmpAddrOffReg0(u16),
    /// 0x2nnn: call the subroutine at nnn, pushing the return address.
    CallSub(u16),
    /// 0x3xkk: skip the next instruction if Vx == kk.
    SkipEq { r: u8, val: u8 },
    /// 0x4xkk: skip the next instruction if Vx != kk.
    SkipNeq { r: u8, val: u8 },
    /// 0x5xy0: skip the next instruction if Vx == Vy.
    SkipRegEq { r: u8, f: u8 },
    /// 0x9xy0: skip the next instruction if Vx != Vy.
    SkipRegNeq { r: u8, f: u8 },
    /// 0x6xkk: Vx = kk.
    SetByte { r: u8, val: u8 },
    /// 0x7xkk: Vx = Vx + kk, wrapping, no flag.
    AddByte { r: u8, val: u8 },
    /// 0x8xy0: Vx = Vy.
    SetRegV { r: u8, f: u8 },
    /// 0x8xy1: Vx = Vx | Vy.
    OrRegV { r: u8, f: u8 },
    /// 0x8xy2: Vx = Vx & Vy.
    AndRegV { r: u8, f: u8 },
    /// 0x8xy3: Vx = Vx ^ Vy.
    XorRegV { r: u8, f: u8 },
    /// 0x8xy4: Vx = Vx + Vy with the carry flag.
    AddRegV { r: u8, f: u8 },
    /// 0x8xy5: Vx = Vx - Vy; the flag is set iff no borrow occurred.
    SubRegV { r: u8, f: u8 },
    /// 0x8xy7: Vx = Vy - Vx; the flag is set iff no borrow occurred.
    SubNRegV { r: u8, f: u8 },
    /// 0x8x_6: Vx = Vx >> 1; the flag takes the shifted-out low bit.
    ShrRegV { r: u8 },
    /// 0x8x_E: Vx = Vx << 1; the flag takes the shifted-out high bit.
    ShlRegV { r: u8 },
    /// 0xAnnn: set the index register to nnn.
    SetRegL(u16),
    /// 0xCxkk: Vx = (random byte) & kk.
    RndAnd { r: u8, val: u8 },
    /// 0xDxyn: draw the n-byte sprite at the index register at (Vx, Vy).
    DispSpr { rp: (u8, u8), n: u8 },
    /// 0xEx9E: skip the next instruction if the key Vx is pressed.
    SkipKeyPressed { r: u8 },
    /// 0xExA1: skip the next instruction if the key Vx is not pressed.
    SkipKeyReleased { r: u8 },
    /// 0xFx07: Vx = delay timer.
    SetDelayToReg { r: u8 },
    /// 0xFx0A: block until a key is pressed and store it in Vx.
    WaitKeyPress { r: u8 },
    /// 0xFx15: delay timer = Vx.
    SetDelayFromReg { r: u8 },
    /// 0xFx18: sound timer = Vx.
    SetSoundFromReg { r: u8 },
    /// 0xFx1E: index register = index register + Vx, wrapping in 16 bits.
    AddRegL { r: u8 },
    /// 0xFx29: index register = the font address of the digit Vx.
    SetRegLFontAddrFromReg { r: u8 },
    /// 0xFx55: dump V0..=Vx to memory at the index register.
    MemDump { endr: u8 },
    /// 0xFx65: load V0..=Vx from memory at the index register.
    MemRead { endr: u8 },
}

/// The 12-bit address held in the low three nibbles of an instruction word.
pub open spec fn spec_addr(b0: u8, b1: u8) -> u16 {
    (((b0 & 0x0F) as u16) << 8u16 | (b1 as u16)) as u16
}

/// What the decoder returns for a 2-byte instruction word: `None` exactly on
/// the byte patterns that match no defined encoding. Decoding is pure and
/// total over the 16-bit input space.
pub open spec fn spec_decode(b0: u8, b1: u8) -> Option<Instruction> {
    let x = b0 & 0x0F;
    let y = b1 >> 4u8;
    let k = b1 & 0x0F;
    match b0 >> 4u8 {
        0x00 => if x == 0 && b1 == 0xE0 {
            Some(Instruction::ClearDisplay)
        } else if x == 0 && b1 == 0xEE {
            Some(Instruction::ReturnSubroutine)
        } else {
            Some(Instruction::Ignore)
        },
        0x01 => Some(Instruction::JmpAddr(spec_addr(b0, b1))),
        0x02 => Some(Instruction::CallSub(spec_addr(b0, b1))),
        0x03 => Some(Instruction::SkipEq { r: x, val: b1 }),
        0x04 => Some(Instruction::SkipNeq { r: x, val: b1 }),
        0x05 => if k == 0 {
            Some(Instruction::SkipRegEq { r: x, f: y })
        } else {
            None
        },
        0x06 => Some(Instruction::SetByte { r: x, val: b1 }),
        0x07 => Some(Instruction::AddByte { r: x, val: b1 }),
        0x08 => match k {
            0x00 => Some(Instruction::SetRegV { r: x, f: y }),
            0x01 => Some(Instruction::OrRegV { r: x, f: y }),
            0x02 => Some(Instruction::AndRegV { r: x, f: y }),
            0x03 => Some(Instruction::XorRegV { r: x, f: y }),
            0x04 => Some(Instruction::AddRegV { r: x, f: y }),
            0x05 => Some(Instruction::SubRegV { r: x, f: y }),
            0x06 => Some(Instruction::ShrRegV { r: x }),
            0x07 => Some(Instruction::SubNRegV { r: x, f: y }),
            0x0E => Some(Instruction::ShlRegV { r: x }),
            _ => None,
        },
        0x09 => if k == 0 {
            Some(Instruction::SkipRegNeq { r: x, f: y })
        } else {
            None
        },
        0x0A => Some(Instruction::SetRegL(spec_addr(b0, b1))),
        0x0B => Some(Instruction::JmpAddrOffReg0(spec_addr(b0, b1))),
        0x0C => Some(Instruction::RndAnd { r: x, val: b1 }),
        0x0D => Some(Instruction::DispSpr { rp: (x, y), n: k }),
        0x0E => if b1 == 0x9E {
            Some(Instruction::SkipKeyPressed { r: x })
        } else if b1 == 0xA1 {
            Some(Instruction::SkipKeyReleased { r: x })
        } else {
            None
        },
        0x0F => match b1 {
            0x07 => Some(Instruction::SetDelayToReg { r: x }),
            0x0A => Some(Instruction::WaitKeyPress { r: x }),
            0x15 => Some(Instruction::SetDelayFromReg { r: x }),
            0x18 => Some(Instruction::SetSoundFromReg { r: x }),
            0x1E => Some(Instruction::AddRegL { r: x }),
            0x29 => Some(Instruction::SetRegLFontAddrFromReg { r: x }),
            0x55 => Some(Instruction::MemDump { endr: x }),
            0x65 => Some(Instruction::MemRead { endr: x }),
            _ => None,
        },
        _ => None,
    }
}

/// Validity of the operand fields of a decoded instruction: register
/// indices and nibble counts fit in a nibble, addresses in 12 bits.
pub open spec fn inst_wf(i: Instruction) -> bool {
    match i {
        Instruction::Ignore => true,
        Instruction::ClearDisplay => true,
        Instruction::ReturnSubroutine => true,
        Instruction::JmpAddr(a) => a <= 0xFFF,
        Instruction::JmpAddrOffReg0(a) => a <= 0xFFF,
        Instruction::CallSub(a) => a <= 0xFFF,
        Instruction::SkipEq { r, val } => r < 16,
        Instruction::SkipNeq { r, val } => r < 16,
        Instruction::SkipRegEq { r, f } => r < 16 && f < 16,
        Instruction::SkipRegNeq { r, f } => r < 16 && f < 16,
        Instruction::SetByte { r, val } => r < 16,
        Instruction::AddByte { r, val } => r < 16,
        Instruction::SetRegV { r, f } => r < 16 && f < 16,
        Instruction::OrRegV { r, f } => r < 16 && f < 16,
        Instruction::AndRegV { r, f } => r < 16 && f < 16,
        Instruction::XorRegV { r, f } => r < 16 && f < 16,
        Instruction::AddRegV { r, f } => r < 16 && f < 16,
        Instruction::SubRegV { r, f } => r < 16 && f < 16,
        Instruction::SubNRegV { r, f } => r < 16 && f < 16,
        Instruction::ShrRegV { r } => r < 16,
        Instruction::ShlRegV { r } => r < 16,
        Instruction::SetRegL(a) => a <= 0xFFF,
        Instruction::RndAnd { r, val } => r < 16,
        Instruction::DispSpr { rp, n } => rp.0 < 16 && rp.1 < 16 && n < 16,
        Instruction::SkipKeyPressed { r } => r < 16,
        Instruction::SkipKeyReleased { r } => r < 16,
        Instruction::SetDelayToReg { r } => r < 16,
        Instruction::WaitKeyPress { r } => r < 16,
        Instruction::SetDelayFromReg { r } => r < 16,
        Instruction::SetSoundFromReg { r } => r < 16,
        Instruction::AddRegL { r } => r < 16,
        Instruction::SetRegLFontAddrFromReg { r } => r < 16,
        Instruction::MemDump { endr } => endr < 16,
        Instruction::MemRead { endr } => endr < 16,
    }
}

/// Every instruction the decoder recognizes has well-formed operand fields.
pub proof fn lemma_decode_wf(b0: u8, b1: u8)
    ensures
        spec_decode(b0, b1) matches Some(i) ==> inst_wf(i),
{
    assert(b0 & 0x0F < 16) by (bit_vector);
    assert(b1 >> 4u8 < 16) by (bit_vector);
    assert(b1 & 0x0F < 16) by (bit_vector);
    assert((((b0 & 0x0F) as u16) << 8u16 | (b1 as u16)) <= 0xFFF) by (bit_vector);
}

/// Decode a 2-byte instruction word, or report that it matches no defined
/// encoding. The 0x0nnn machine-code-call family other than 0x00E0 and
/// 0x00EE decodes to `Instruction::Ignore`, a documented no-op.
pub fn parse_instruction(bytes: &[u8; 2]) -> (r: Option<Instruction>)
    ensures
        r == spec_decode(bytes[0], bytes[1]),
{
    let b0 = bytes[0];
    let b1 = bytes[1];
    let x = b0 & 0x0F;
    let y = b1 >> 4u8;
    let k = b1 & 0x0F;
    let nnn: u16 = ((x as u16) << 8u16) | (b1 as u16);
    match b0 >> 4u8 {
        0x00 => {
            if x == 0 && b1 == 0xE0 {
                Some(Instruction::ClearDisplay)
            } else if x == 0 && b1 == 0xEE {
                Some(Instruction::ReturnSubroutine)
            } else {
                Some(Instruction::Ignore)
            }
        },
        0x01 => Some(Instruction::JmpAddr(nnn)),
        0x02 => Some(Instruction::CallSub(nnn)),
        0x03 => Some(Instruction::SkipEq { r: x, val: b1 }),
        0x04 => Some(Instruction::SkipNeq { r: x, val: b1 }),
        0x05 => if k == 0 {
            Some(Instruction::SkipRegEq { r: x, f: y })
        } else {
            None
        },
        0x06 => Some(Instruction::SetByte { r: x, val: b1 }),
        0x07 => Some(Instruction::AddByte { r: x, val: b1 }),
        0x08 => match k {
            0x00 => Some(Instruction::SetRegV { r: x, f: y }),
            0x01 => Some(Instruction::OrRegV { r: x, f: y }),
            0x02 => Some(Instruction::AndRegV { r: x, f: y }),
            0x03 => Some(Instruction::XorRegV { r: x, f: y }),
            0x04 => Some(Instruction::AddRegV { r: x, f: y }),
            0x05 => Some(Instruction::SubRegV { r: x, f: y }),
            0x06 => Some(Instruction::ShrRegV { r: x }),
            0x07 => Some(Instruction::SubNRegV { r: x, f: y }),
            0x0E => Some(Instruction::ShlRegV { r: x }),
            _ => None,
        },
        0x09 => if k == 0 {
            Some(Instruction::SkipRegNeq { r: x, f: y })
        } else {
            None
        },
        0x0A => Some(Instruction::SetRegL(nnn)),
        0x0B => Some(Instruction::JmpAddrOffReg0(nnn)),
        0x0C => Some(Instruction::RndAnd { r: x, val: b1 }),
        0x0D => Some(Instruction::DispSpr { rp: (x, y), n: k }),
        0x0E => {
            if b1 == 0x9E {
                Some(Instruction::SkipKeyPressed { r: x })
            } else if b1 == 0xA1 {
                Some(Instruction::SkipKeyReleased { r: x })
            } else {
                None
            }
        },
        0x0F => match b1 {
            0x07 => Some(Instruction::SetDelayToReg { r: x }),
            0x0A => Some(Instruction::WaitKeyPress { r: x }),
            0x15 => Some(Instruction::SetDelayFromReg { r: x }),
            0x18 => Some(Instruction::SetSoundFromReg { r: x }),
            0x1E => Some(Instruction::AddRegL { r: x }),
            0x29 => Some(Instruction::SetRegLFontAddrFromReg { r: x }),
            0x55 => Some(Instruction::MemDump { endr: x }),
            0x65 => Some(Instruction::MemRead { endr: x }),
            _ => None,
        },
        _ => None,
    }
}

/// Relies on String::push: appends the given character to the end of the
/// string.
pub assume_specification[ String::push ](s: &mut String, ch: char)
    ensures
        final(s)@ == old(s)@.push(ch),
;

/// The character standing for bit `j` of a byte (j = 7 is the highest bit):
/// `true_char` where the bit is set, `false_char` where it is not.
pub open spec fn bit_char(byte: u8, j: int, true_char: char, false_char: char) -> char {
    if ((byte >> (j as u8)) & 1) == 1 {
        true_char
    } else {
        false_char
    }
}

/// Render a 2-byte instruction word as two 8-character bit fields, highest
/// bit first, separated by one space.
pub fn to_bitfield_string(bytes: &[u8; 2], true_char: char, false_char: char) -> (r: String)
    ensures
        r@.len() == 17,
        forall|i: int| 0 <= i < 8 ==> r@[i] == bit_char(bytes[0], 7 - i, true_char, false_char),
        r@[8] == ' ',
        forall|i: int|
            0 <= i < 8 ==> r@[9 + i] == #[trigger] bit_char(bytes[1], 7 - i, true_char, false_char),
{
    let b0 = bytes[0];
    let b1 = bytes[1];
    let mut result = String::new();
    let mut i: usize = 0;
    while i < 8
        invariant
            i <= 8,
            result@.len() == i,
            forall|k: int| 0 <= k < i ==> result@[k] == bit_char(b0, 7 - k, true_char, false_char),
        decreases 8 - i,
    {
        let sh: u8 = (7 - i) as u8;
        if ((b0 >> sh) & 1) == 1 {
            result.push(true_char);
        } else {
            result.push(false_char);
        }
        i = i + 1;
    }
    result.push(' ');
    let mut j: usize = 0;
    while j < 8
        invariant
            j <= 8,
            result@.len() == 9 + j,
            forall|k: int| 0 <= k < 8 ==> result@[k] == bit_char(b0, 7 - k, true_char, false_char),
            result@[8] == ' ',
            forall|k: int|
                0 <= k < j ==> result@[9 + k] == #[trigger] bit_char(b1, 7 - k, true_char,
                    false_char),
        decreases 8 - j,
    {
        let sh: u8 = (7 - j) as u8;
        if ((b1 >> sh) & 1) == 1 {
            result.push(true_char);
        } else {
            result.push(false_char);
        }
        j = j + 1;
    }
    result
}

} // verus!
