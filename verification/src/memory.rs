//! The memory subsystem: the fixed 4096-byte address space holding the
//! built-in font table, the loaded program, and scratch space; instruction
//! fetch and bulk reads and writes, with out-of-range spans rejected rather
//! than clamped.

use vstd::prelude::*;

use crate::isa;
use crate::isa::Instruction;

verus! {

/// Size of the address space in bytes.
pub const MEMORY_SIZE: usize = 4096;

/// Address at which the loaded program begins and execution starts.
pub const PROGRAM_BASE: usize = 512;

/// Largest program that fits between the program base and the end of the
/// address space.
pub const MAX_ROM_LEN: usize = 3584;

/// Number of bytes in one font glyph: each of the 16 digit glyphs is 5 rows
/// of 8 pixels, so glyph k lives at address k*5.
pub const FONT_GLYPH_LEN: usize = 5;

/// The built-in font: 16 glyphs (digits 0..=F) of 5 rows each, glyph k at
/// offset k*5. Each row byte draws its pixels from the high bit leftward,
/// so every glyph occupies the leftmost 4 columns.
pub open spec fn font_table() -> Seq<u8> {
    seq![
        0xF0u8, 0x90u8, 0x90u8, 0x90u8, 0xF0u8,
        0x20u8, 0x60u8, 0x20u8, 0x20u8, 0x70u8,
        0xF0u8, 0x10u8, 0xF0u8, 0x80u8, 0xF0u8,
        0xF0u8, 0x10u8, 0xF0u8, 0x10u8, 0xF0u8,
        0x90u8, 0x90u8, 0xF0u8, 0x10u8, 0x10u8,
        0xF0u8, 0x80u8, 0xF0u8, 0x10u8, 0xF0u8,
        0xF0u8, 0x80u8, 0xF0u8, 0x90u8, 0xF0u8,
        0xF0u8, 0x10u8, 0x20u8, 0x40u8, 0x40u8,
        0xF0u8, 0x90u8, 0xF0u8, 0x90u8, 0xF0u8,
        0xF0u8, 0x90u8, 0xF0u8, 0x10u8, 0xF0u8,
        0xF0u8, 0x90u8, 0xF0u8, 0x90u8, 0x90u8,
        0xE0u8, 0x90u8, 0xE0u8, 0x90u8, 0xE0u8,
        0xF0u8, 0x80u8, 0x80u8, 0x80u8, 0xF0u8,
        0xE0u8, 0x90u8, 0x90u8, 0x90u8, 0xE0u8,
        0xF0u8, 0x80u8, 0xF0u8, 0x80u8, 0xF0u8,
        0xF0u8, 0x80u8, 0xF0u8, 0x80u8, 0x80u8,
    ]
}

/// Build the font table as an executable vector.
fn build_font() -> (f: Vec<u8>)
    ensures
        f@ == font_table(),
{
    let mut f: Vec<u8> = Vec::new();
    f.push(0xF0); f.push(0x90); f.push(0x90); f.push(0x90); f.push(0xF0);
    f.push(0x20); f.push(0x60); f.push(0x20); f.push(0x20); f.push(0x70);
    f.push(0xF0); f.push(0x10); f.push(0xF0); f.push(0x80); f.push(0xF0);
    f.push(0xF0); f.push(0x10); f.push(0xF0); f.push(0x10); f.push(0xF0);
    f.push(0x90); f.push(0x90); f.push(0xF0); f.push(0x10); f.push(0x10);
    f.push(0xF0); f.push(0x80); f.push(0xF0); f.push(0x10); f.push(0xF0);
    f.push(0xF0); f.push(0x80); f.push(0xF0); f.push(0x90); f.push(0xF0);
    f.push(0xF0); f.push(0x10); f.push(0x20); f.push(0x40); f.push(0x40);
    f.push(0xF0); f.push(0x90); f.push(0xF0); f.push(0x90); f.push(0xF0);
    f.push(0xF0); f.push(0x90); f.push(0xF0); f.push(0x10); f.push(0xF0);
    f.push(0xF0); f.push(0x90); f.push(0xF0); f.push(0x90); f.push(0x90);
    f.push(0xE0); f.push(0x90); f.push(0xE0); f.push(0x90); f.push(0xE0);
    f.push(0xF0); f.push(0x80); f.push(0x80); f.push(0x80); f.push(0xF0);
    f.push(0xE0); f.push(0x90); f.push(0x90); f.push(0x90); f.push(0xE0);
    f.push(0xF0); f.push(0x80); f.push(0xF0); f.push(0x80); f.push(0xF0);
    f.push(0xF0); f.push(0x80); f.push(0xF0); f.push(0x80); f.push(0x80);
    proof {
        assert(f@ =~= font_table());
    }
    f
}

/// The contents of a freshly constructed address space: the font table at
/// the bottom, zeroes up to the program base, the program blob from there,
/// and zeroes in the unused tail.
pub open spec fn loaded_from(mem: Seq<u8>, rom: Seq<u8>) -> bool {
    &&& mem.len() == 4096
    &&& mem.subrange(0, 80) == font_table()
    &&& forall|i: int| 80 <= i < 512 ==> mem[i] == 0u8
    &&& mem.subrange(512, 512 + rom.len() as int) == rom
    &&& forall|i: int| 512 + rom.len() <= i < 4096 ==> mem[i] == 0u8
}

/// The 4096-byte address space: the font table at the bottom, the loaded
/// program from the program base, and zeroes elsewhere at construction.
pub struct Memory {
    /// The full address space, byte by byte.
    pub bytes: Vec<u8>,
}

impl Memory {
    /// Well-formedness: the address space has its fixed size.
    pub open spec fn wf(&self) -> bool {
        self.bytes@.len() == 4096
    }

    /// Construct the address space from a program blob. The blob is copied
    /// starting at the program base; a blob that would overflow the address
    /// space is rejected outright. The font table is always present and is
    /// not overwritten by the program.
    pub fn new(rom: &Vec<u8>) -> (r: Option<Memory>)
        ensures
            r is Some <==> rom@.len() <= 3584,
            r matches Some(m) ==> m.wf() && loaded_from(m.bytes@, rom@),
    {
        if rom.len() > MAX_ROM_LEN {
            return None;
        }
        let mut bytes: Vec<u8> = Vec::new();
        let mut i: usize = 0;
        while i < MEMORY_SIZE
            invariant
                i <= 4096,
                bytes@.len() == i,
                forall|k: int| 0 <= k < i ==> bytes@[k] == 0u8,
            decreases 4096 - i,
        {
            bytes.push(0);
            i = i + 1;
        }
        let font = build_font();
        let mut j: usize = 0;
        while j < 80
            invariant
                j <= 80,
                bytes@.len() == 4096,
                font@ == font_table(),
                forall|k: int| 0 <= k < j ==> bytes@[k] == font_table()[k],
                forall|k: int| j <= k < 4096 ==> bytes@[k] == 0u8,
            decreases 80 - j,
        {
            let v = font[j];
            bytes.set(j, v);
            j = j + 1;
        }
        let mut p: usize = 0;
        while p < rom.len()
            invariant
                p <= rom@.len(),
                rom@.len() <= 3584,
                bytes@.len() == 4096,
                forall|k: int| 0 <= k < 80 ==> bytes@[k] == font_table()[k],
                forall|k: int| 80 <= k < 512 ==> bytes@[k] == 0u8,
                forall|k: int| 0 <= k < p ==> bytes@[512 + k] == rom@[k],
                forall|k: int| 512 + p <= k < 4096 ==> bytes@[k] == 0u8,
            decreases rom@.len() - p,
        {
            let v = rom[p];
            bytes.set(PROGRAM_BASE + p, v);
            p = p + 1;
        }
        let m = Memory { bytes };
        proof {
            assert(m.bytes@.subrange(0, 80) =~= font_table());
            assert(m.bytes@.subrange(512, 512 + rom@.len() as int) =~= rom@);
        }
        Some(m)
    }

    /// Fetch the 2-byte instruction word at an address; an address whose
    /// second byte falls outside the address space is an out-of-range
    /// failure, never a clamp.
    pub fn fetch(&self, addr: u16) -> (r: Option<(u8, u8)>)
        requires
            self.wf(),
        ensures
            r == if addr + 1 < 4096 {
                Some((self.bytes@[addr as int], self.bytes@[addr as int + 1]))
            } else {
                None::<(u8, u8)>
            },
    {
        if addr as usize + 1 >= MEMORY_SIZE {
            return None;
        }
        Some((self.bytes[addr as usize], self.bytes[addr as usize + 1]))
    }

    /// Fetch and decode the instruction word at an address. An out-of-range
    /// address and an unrecognized word both yield `None`; callers that must
    /// tell them apart use `fetch` and the decoder separately.
    pub fn parse_instruction(&self, addr: u16) -> (r: Option<Instruction>)
        requires
            self.wf(),
        ensures
            r == if addr + 1 < 4096 {
                isa::spec_decode(self.bytes@[addr as int], self.bytes@[addr as int + 1])
            } else {
                None::<Instruction>
            },
    {
        match self.fetch(addr) {
            Some((b0, b1)) => isa::parse_instruction(&[b0, b1]),
            None => None,
        }
    }

    /// Read `count` bytes starting at an address; a span that leaves the
    /// address space is an out-of-range failure, never a clamp.
    pub fn get_data_bytes(&self, addr: usize, count: usize) -> (r: Option<Vec<u8>>)
        requires
            self.wf(),
        ensures
            r is Some <==> addr + count <= 4096,
            r matches Some(v) ==> v@ == self.bytes@.subrange(addr as int, addr as int + count),
    {
        if addr > MEMORY_SIZE || count > MEMORY_SIZE - addr {
            return None;
        }
        let mut v: Vec<u8> = Vec::new();
        let mut i: usize = 0;
        while i < count
            invariant
                i <= count,
                addr + count <= 4096,
                self.wf(),
                v@.len() == i,
                forall|k: int| 0 <= k < i ==> v@[k] == self.bytes@[addr + k],
            decreases count - i,
        {
            let b = self.bytes[addr + i];
            v.push(b);
            i = i + 1;
        }
        proof {
            assert(v@ =~= self.bytes@.subrange(addr as int, addr as int + count));
        }
        Some(v)
    }

    /// Write the given bytes starting at address `l`. A span that leaves the
    /// address space is rejected whole: nothing is written and the call
    /// reports failure.
    pub fn store_from(&mut self, dump_vals: &Vec<u8>, l: u16) -> (r: bool)
        requires
            old(self).wf(),
        ensures
            final(self).wf(),
            r == (l + dump_vals@.len() <= 4096),
            r ==> forall|i: int|
                0 <= i < 4096 ==> final(self).bytes@[i] == if l <= i < l + dump_vals@.len() {
                    dump_vals@[i - l]
                } else {
                    old(self).bytes@[i]
                },
            !r ==> final(self).bytes@ == old(self).bytes@,
    {
        if dump_vals.len() > MEMORY_SIZE || l as usize > MEMORY_SIZE - dump_vals.len() {
            return false;
        }
        let base = l as usize;
        let mut i: usize = 0;
        while i < dump_vals.len()
            invariant
                i <= dump_vals@.len(),
                base + dump_vals@.len() <= 4096,
                base == l as int,
                self.wf(),
                forall|k: int|
                    0 <= k < 4096 ==> self.bytes@[k] == if base <= k < base + i {
                        dump_vals@[k - base]
                    } else {
                        old(self).bytes@[k]
                    },
            decreases dump_vals@.len() - i,
        {
            let v = dump_vals[i];
            self.bytes.set(base + i, v);
            i = i + 1;
        }
        true
    }
}

} // verus!
