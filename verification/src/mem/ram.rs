use vstd::prelude::*;
use crate::bits::{lemma_u8_fields};

verus! {

/// Work RAM (eight 4 KiB banks, bank 0 fixed at 0xC000, a switchable one at
/// 0xD000) and high RAM (0xFF80-0xFFFE).
pub struct RAM {
    /// Bank mapped at 0xD000 (1-7).
    pub wram_bank: usize,
    /// The eight banks, bank `b` at offsets `b * 0x1000 ..`.
    pub wram: [u8; 0x8000],
    pub hram: [u8; 0x80],
}

/// The addresses RAM answers.
pub open spec fn ram_handles(addr: u16) -> bool {
    ||| 0xc000 <= addr <= 0xdfff
    ||| addr == 0xff70
    ||| 0xff80 <= addr <= 0xfffe
}

/// The bank that a write of `value` to SVBK selects: the low three bits, 0 read as 1.
pub open spec fn svbk_bank(value: u8) -> usize {
    if value % 8 == 0 { 1 } else { (value % 8) as usize }
}

impl RAM {
    pub open spec fn wf(&self) -> bool {
        1 <= self.wram_bank <= 7
    }

    /// Offset within `wram` of a work RAM address.
    pub open spec fn wram_offset(&self, addr: u16) -> int {
        if addr <= 0xcfff { addr - 0xc000 } else { self.wram_bank * 0x1000 + (addr - 0xd000) }
    }

    /// The byte a read at `addr` returns.
    pub open spec fn read_value(&self, addr: u16) -> u8 {
        if 0xc000 <= addr <= 0xdfff {
            self.wram@[self.wram_offset(addr)]
        } else if addr == 0xff70 {
            self.wram_bank as u8
        } else if 0xff80 <= addr <= 0xfffe {
            self.hram@[addr - 0xff80]
        } else {
            0xff
        }
    }

    /// The state after a write of `value` at `addr`.
    pub open spec fn after_write(self, addr: u16, value: u8) -> RAM {
        if 0xc000 <= addr <= 0xdfff {
            RAM { wram: vstd::array::spec_array_update(self.wram, self.wram_offset(addr), value), ..self }
        } else if addr == 0xff70 {
            RAM { wram_bank: svbk_bank(value), ..self }
        } else if 0xff80 <= addr <= 0xfffe {
            RAM { hram: vstd::array::spec_array_update(self.hram, addr - 0xff80, value), ..self }
        } else {
            self
        }
    }

    pub fn new() -> (r: Self)
        ensures
            r.wf(),
            r.wram_bank == 1,
            forall|i: int| 0 <= i < 0x8000 ==> r.wram@[i] == 0,
            forall|i: int| 0 <= i < 0x80 ==> r.hram@[i] == 0,
            forall|a: u16| ram_byte(a) ==> #[trigger] r.read_value(a) == 0,
            r.read_value(0xff70) == 1,
    {
        RAM { wram_bank: 1, wram: [0; 0x8000], hram: [0; 0x80] }
    }

    /// A write: work RAM through the current bank, SVBK selects the bank, high
    /// RAM; other addresses are ignored.
    pub fn write(&mut self, addr: u16, value: u8)
        requires
            old(self).wf(),
        ensures
            final(self).wf(),
            *final(self) == old(self).after_write(addr, value),
            0xc000 <= addr <= 0xdfff ==> {
                &&& final(self).wram@ == old(self).wram@.update(old(self).wram_offset(addr), value)
                &&& final(self).wram_bank == old(self).wram_bank
                &&& final(self).hram@ == old(self).hram@
            },
            addr == 0xff70 ==> {
                &&& final(self).wram_bank == svbk_bank(value)
                &&& final(self).wram@ == old(self).wram@
                &&& final(self).hram@ == old(self).hram@
            },
            0xff80 <= addr <= 0xfffe ==> {
                &&& final(self).hram@ == old(self).hram@.update(addr - 0xff80, value)
                &&& final(self).wram_bank == old(self).wram_bank
                &&& final(self).wram@ == old(self).wram@
            },
            !ram_handles(addr) ==> {
                &&& final(self).wram_bank == old(self).wram_bank
                &&& final(self).wram@ == old(self).wram@
                &&& final(self).hram@ == old(self).hram@
            },
    {
        if 0xc000 <= addr && addr <= 0xcfff {
            self.wram[(addr - 0xc000) as usize] = value;
        } else if 0xd000 <= addr && addr <= 0xdfff {
            self.wram[self.wram_bank * 0x1000 + (addr - 0xd000) as usize] = value;
        } else if addr == 0xff70 {
            let b = value & 0b111;
            assert(value & 0b111 == value % 8) by { lemma_u8_fields(value); }
            self.wram_bank = if b == 0 { 1 } else { b as usize };
        } else if 0xff80 <= addr && addr <= 0xfffe {
            self.hram[(addr - 0xff80) as usize] = value;
        }
    }

    pub fn read(&self, addr: u16) -> (r: u8)
        requires
            self.wf(),
        ensures
            r == self.read_value(addr),
    {
        if 0xc000 <= addr && addr <= 0xcfff {
            self.wram[(addr - 0xc000) as usize]
        } else if 0xd000 <= addr && addr <= 0xdfff {
            self.wram[self.wram_bank * 0x1000 + (addr - 0xd000) as usize]
        } else if addr == 0xff70 {
            self.wram_bank as u8
        } else if 0xff80 <= addr && addr <= 0xfffe {
            self.hram[(addr - 0xff80) as usize]
        } else {
            0xff
        }
    }
}

/// Whether `addr` is a work RAM or high RAM byte.
pub open spec fn ram_byte(addr: u16) -> bool {
    0xc000 <= addr <= 0xdfff || 0xff80 <= addr <= 0xfffe
}

/// Reading a RAM byte gives back what was last written there: after a write
/// of `value` at a work or high RAM address `addr`, a read of `addr` returns
/// `value`, and every other work or high RAM address reads as before.
pub proof fn lemma_ram_read_after_write(r: RAM, addr: u16, value: u8, other: u16)
    requires
        r.wf(),
        ram_byte(addr),
        ram_byte(other),
        other != addr,
    ensures
        r.after_write(addr, value).read_value(addr) == value,
        r.after_write(addr, value).read_value(other) == r.read_value(other),
{
}


impl RAM {
    /// The state after the writes `ws`, in order (address, value).
    pub open spec fn after_writes(self, ws: Seq<(u16, u8)>) -> RAM
        decreases ws.len(),
    {
        if ws.len() == 0 {
            self
        } else {
            self.after_write(ws[0].0, ws[0].1).after_writes(ws.drop_first())
        }
    }
}

/// Selecting a bank: after a write of `value` to SVBK (0xFF70), SVBK reads as
/// the low three bits of `value`, or 1 where they are 0, so bank 0 is never
/// mapped at 0xD000; work RAM at 0xC000-0xCFFF and high RAM read as before.
pub proof fn lemma_ram_svbk(r: RAM, value: u8, addr: u16)
    requires
        r.wf(),
        0xc000 <= addr <= 0xcfff || 0xff80 <= addr <= 0xfffe,
    ensures
        r.after_write(0xff70, value).wf(),
        r.after_write(0xff70, value).read_value(0xff70) == (if value & 7 == 0 { 1 } else { value & 7 }),
        r.after_write(0xff70, value).read_value(0xff70) != 0,
        r.after_write(0xff70, value).read_value(addr) == r.read_value(addr),
{
    lemma_u8_fields(value);
}

/// Each bank at 0xD000-0xDFFF keeps its own bytes: after a write of `value` at
/// `addr` in the current bank, switching (by a write of `w` to SVBK) to another
/// bank shows that bank's byte as it was, and switching back to the first bank
/// shows `value` again.
pub proof fn lemma_ram_bank_separation(r: RAM, addr: u16, value: u8, w: u8)
    requires
        r.wf(),
        0xd000 <= addr <= 0xdfff,
    ensures
        svbk_bank(w) != r.wram_bank ==> r.after_write(addr, value).after_write(0xff70, w).read_value(addr)
            == r.after_write(0xff70, w).read_value(addr),
        svbk_bank(w) == r.wram_bank ==> r.after_write(addr, value).after_write(0xff70, w).read_value(addr)
            == value,
        r.after_write(addr, value).after_write(0xff70, w).after_write(0xff70, r.wram_bank as u8).read_value(addr)
            == value,
{
    let s = r.after_write(addr, value);
    let t = s.after_write(0xff70, w);
    assert(svbk_bank(r.wram_bank as u8) == r.wram_bank);
    assert(t.after_write(0xff70, r.wram_bank as u8).wram@ == s.wram@);
}

/// Addresses RAM does not answer: a write there changes nothing, and a read
/// there gives 0xFF.
pub proof fn lemma_ram_unhandled(r: RAM, addr: u16, value: u8)
    requires
        !ram_handles(addr),
    ensures
        r.after_write(addr, value) == r,
        r.read_value(addr) == 0xff,
{
}

/// Writes that miss `addr` (and, for a banked address, do not switch the bank)
/// leave its byte as it was.
proof fn lemma_ram_writes_elsewhere(r: RAM, ws: Seq<(u16, u8)>, addr: u16)
    requires
        r.wf(),
        ram_byte(addr),
        forall|k: int| 0 <= k < ws.len() ==> (#[trigger] ws[k]).0 != addr
            && (0xd000 <= addr <= 0xdfff ==> ws[k].0 != 0xff70),
    ensures
        r.after_writes(ws).wf(),
        r.after_writes(ws).read_value(addr) == r.read_value(addr),
    decreases ws.len(),
{
    if ws.len() > 0 {
        let (a, v) = ws[0];
        let r1 = r.after_write(a, v);
        if ram_byte(a) {
            lemma_ram_read_after_write(r, a, v, addr);
        } else if a == 0xff70 {
            lemma_ram_svbk(r, v, addr);
        } else {
            lemma_ram_unhandled(r, a, v);
        }
        let rest = ws.drop_first();
        assert forall|k: int| 0 <= k < rest.len() implies (#[trigger] rest[k]).0 != addr
            && (0xd000 <= addr <= 0xdfff ==> rest[k].0 != 0xff70) by {
            assert(rest[k] == ws[k + 1]);
        }
        lemma_ram_writes_elsewhere(r1, rest, addr);
    }
}

/// A byte written to work or high RAM reads back as written after any later
/// writes that neither hit its address nor, for a byte at 0xD000-0xDFFF,
/// switch the bank.
pub proof fn lemma_ram_write_persists(r: RAM, addr: u16, value: u8, ws: Seq<(u16, u8)>)
    requires
        r.wf(),
        ram_byte(addr),
        forall|k: int| 0 <= k < ws.len() ==> (#[trigger] ws[k]).0 != addr
            && (0xd000 <= addr <= 0xdfff ==> ws[k].0 != 0xff70),
    ensures
        r.after_write(addr, value).after_writes(ws).read_value(addr) == value,
{
    lemma_ram_writes_elsewhere(r.after_write(addr, value), ws, addr);
}

} // verus!
