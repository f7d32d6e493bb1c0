use vstd::prelude::*;
use vstd::string::StrSliceExecFns;
use crate::cpu::cpu::LR35902CPU;
use crate::cpu::instructions::{decode, instruction_table, AddrMode, CondType, Instruction};
use crate::cpu::instructions::control::cond_holds;
use crate::cpu::registers::{CPURegisterId, CPURegisters, FLAG_C, FLAG_Z};

verus! {

/// One disassembled instruction: its address and its text.
pub struct GbAsm {
    pub addr: u16,
    pub text: String,
}

/// The upper-case hexadecimal digit of `n` (0-15).
pub open spec fn hex_digit(n: int) -> char {
    if n < 10 { ('0' as int + n) as char } else { ('A' as int + n - 10) as char }
}

/// `b` as two hexadecimal digits.
pub open spec fn hex8(b: u8) -> Seq<char> {
    seq![hex_digit((b / 16) as int), hex_digit((b % 16) as int)]
}

/// `w` as four hexadecimal digits.
pub open spec fn hex16(w: u16) -> Seq<char> {
    hex8((w / 256) as u8) + hex8((w % 256) as u8)
}

/// The name of a register.
pub open spec fn reg_name(r: CPURegisterId) -> Seq<char> {
    match r {
        CPURegisterId::A => seq!['A'],
        CPURegisterId::F => seq!['F'],
        CPURegisterId::B => seq!['B'],
        CPURegisterId::C => seq!['C'],
        CPURegisterId::D => seq!['D'],
        CPURegisterId::E => seq!['E'],
        CPURegisterId::H => seq!['H'],
        CPURegisterId::L => seq!['L'],
        CPURegisterId::PC => seq!['P', 'C'],
        CPURegisterId::SP => seq!['S', 'P'],
        CPURegisterId::AF => seq!['A', 'F'],
        CPURegisterId::BC => seq!['B', 'C'],
        CPURegisterId::DE => seq!['D', 'E'],
        CPURegisterId::HL => seq!['H', 'L'],
    }
}

/// The text of a branch condition, followed by ", ".
pub open spec fn cond_text(c: Option<CondType>) -> Seq<char> {
    match c {
        None => Seq::empty(),
        Some(CondType::Z) => seq!['Z', ',', ' '],
        Some(CondType::C) => seq!['C', ',', ' '],
        Some(CondType::Nz) => seq!['N', 'Z', ',', ' '],
        Some(CondType::Nc) => seq!['N', 'C', ',', ' '],
    }
}

/// ", "
pub open spec fn sep() -> Seq<char> {
    seq![',', ' ']
}

/// "$0x"
pub open spec fn imm_prefix() -> Seq<char> {
    seq!['$', '0', 'x']
}

/// Whether the operand text of `i` can be made: the registers it names are
/// there and the operand bytes it shows, at `addr` (or at PC for a signed
/// immediate), can be read.
pub open spec fn operands_ok(cpu: LR35902CPU, i: Instruction, addr: u16) -> bool {
    let r1 = i.reg1 is Some;
    let r2 = i.reg2 is Some;
    match i.addr_mode {
        AddrMode::R => true,
        AddrMode::R_R => r1 ==> r2,
        AddrMode::R_IMM | AddrMode::RADDR_IMM | AddrMode::R16_SIMM => r1 && cpu.can_read(addr),
        AddrMode::R_RADDR | AddrMode::RADDR_R | AddrMode::R16_R16 => r1 && r2,
        AddrMode::R_IMMADDR | AddrMode::R16_IMM16 => r1 && cpu.can_read16(addr),
        AddrMode::RADDR | AddrMode::R16 => r1,
        AddrMode::R16_R16_IMM => r1 && r2 && cpu.can_read(addr),
        AddrMode::IMM_R | AddrMode::IMM_RADDR => r2 && cpu.can_read(addr),
        AddrMode::IMMADDR => cpu.can_read16(addr),
        AddrMode::IMMADDR_R | AddrMode::IMMADDR_R16 => r2 && cpu.can_read16(addr),
        AddrMode::SIMM => cpu.can_read(cpu.registers.pc),
    }
}

/// The operand text of `i`, its operand bytes at `addr`.
pub open spec fn operands_text(cpu: LR35902CPU, i: Instruction, addr: u16) -> Seq<char> {
    let r1 = reg_name(i.reg1.unwrap());
    let r2 = reg_name(i.reg2.unwrap());
    let b = hex8(cpu.mem(addr));
    let w = hex16(cpu.mem16(addr));
    match i.addr_mode {
        AddrMode::R => if i.reg1 is Some { r1 } else { Seq::empty() },
        AddrMode::R_R => if i.reg1 is Some { r1 + sep() + r2 } else { Seq::empty() },
        AddrMode::R_IMM | AddrMode::R16_SIMM => r1 + sep() + imm_prefix() + b,
        AddrMode::R_RADDR => r1 + seq![',', ' ', '['] + r2 + seq![']'],
        AddrMode::R_IMMADDR => r1 + seq![',', ' ', '[', '0', 'x'] + w + seq![']'],
        AddrMode::RADDR => seq!['['] + r1 + seq![']'],
        AddrMode::RADDR_R => seq!['['] + r1 + seq![']', ',', ' '] + r2,
        AddrMode::RADDR_IMM => seq!['['] + r1 + seq![']', ',', ' '] + imm_prefix() + b,
        AddrMode::R16 => r1,
        AddrMode::R16_R16 => r1 + sep() + r2,
        AddrMode::R16_IMM16 => r1 + sep() + imm_prefix() + w,
        AddrMode::R16_R16_IMM => r1 + sep() + r2 + sep() + imm_prefix() + b,
        AddrMode::IMM_R => imm_prefix() + b + sep() + r2,
        AddrMode::IMMADDR => imm_prefix() + w,
        AddrMode::IMM_RADDR => imm_prefix() + b + seq![',', ' ', '['] + r2 + seq![']'],
        AddrMode::IMMADDR_R | AddrMode::IMMADDR_R16 => seq!['[', '0', 'x'] + w + seq![']', ',', ' '] + r2,
        AddrMode::SIMM => imm_prefix() + hex8(cpu.mem(cpu.registers.pc)),
    }
}

/// The text of instruction `i` with its operand bytes at `addr`: the name, a
/// space, the condition and the operands.
pub open spec fn instr_text(cpu: LR35902CPU, i: Instruction, addr: u16) -> Seq<char> {
    i.name@ + seq![' '] + cond_text(i.condition) + operands_text(cpu, i, addr)
}

/// The length in bytes of an instruction of mode `m` (without a 0xCB prefix).
pub open spec fn mode_len(m: AddrMode) -> u16 {
    match m {
        AddrMode::R | AddrMode::R16 | AddrMode::R_R | AddrMode::R_RADDR | AddrMode::RADDR
        | AddrMode::RADDR_R | AddrMode::R16_R16 => 1,
        AddrMode::R_IMM | AddrMode::R16_SIMM | AddrMode::RADDR_IMM | AddrMode::R16_R16_IMM
        | AddrMode::IMM_R | AddrMode::IMM_RADDR | AddrMode::SIMM => 2,
        _ => 3,
    }
}

/// Whether the opcode at `addr` can be read (both bytes after a 0xCB prefix).
pub open spec fn opcode_ok(cpu: LR35902CPU, addr: u16) -> bool {
    &&& cpu.can_read(addr)
    &&& cpu.mem(addr) == 0xcb ==> addr < 0xffff && cpu.can_read((addr + 1) as u16)
}

/// The opcode at `addr` (0x100 plus the next byte after a 0xCB prefix).
pub open spec fn opcode_at(cpu: LR35902CPU, addr: u16) -> u16 {
    if cpu.mem(addr) == 0xcb { (0x100 + cpu.mem((addr + 1) as u16)) as u16 } else { cpu.mem(addr) as u16 }
}

/// The size of the prefix byte at `addr` (1 for 0xCB).
pub open spec fn prefix_len(cpu: LR35902CPU, addr: u16) -> u16 {
    if cpu.mem(addr) == 0xcb { 1 } else { 0 }
}

/// Whether the instruction at `addr` can be disassembled.
pub open spec fn disas_at_ok(cpu: LR35902CPU, addr: u16) -> bool {
    &&& opcode_ok(cpu, addr)
    &&& match instruction_table(opcode_at(cpu, addr)) {
        None => true,
        Some(i) => addr + prefix_len(cpu, addr) + 1 <= 0xffff
            && operands_ok(cpu, i, (addr + prefix_len(cpu, addr) + 1) as u16),
    }
}

/// The length the disassembler gives the instruction at `addr` (1 for an
/// unknown opcode).
pub open spec fn disas_len(cpu: LR35902CPU, addr: u16) -> u16 {
    match instruction_table(opcode_at(cpu, addr)) {
        None => 1,
        Some(i) => (mode_len(i.addr_mode) + prefix_len(cpu, addr)) as u16,
    }
}

/// The text the disassembler gives the instruction at `addr` ("??" for an
/// unknown opcode).
pub open spec fn disas_text(cpu: LR35902CPU, addr: u16) -> Seq<char> {
    match instruction_table(opcode_at(cpu, addr)) {
        None => seq!['?', '?'],
        Some(i) => instr_text(cpu, i, (addr + prefix_len(cpu, addr) + 1) as u16),
    }
}

/// Whether `n` instructions from `addr` on can be disassembled.
pub open spec fn disas_ok(cpu: LR35902CPU, addr: u16, n: nat) -> bool
    decreases n,
{
    n == 0 || (disas_at_ok(cpu, addr) && addr + disas_len(cpu, addr) <= 0xffff
        && disas_ok(cpu, (addr + disas_len(cpu, addr)) as u16, (n - 1) as nat))
}

/// The address of the `k`-th instruction disassembled from `addr`.
pub open spec fn disas_addr(cpu: LR35902CPU, addr: u16, k: nat) -> u16
    decreases k,
{
    if k == 0 {
        addr
    } else {
        let p = disas_addr(cpu, addr, (k - 1) as nat);
        (p + disas_len(cpu, p)) as u16
    }
}

/// The string of the characters `s`, made by std's `FromIterator<char>` for
/// `String` (`Iterator::collect` over the characters). Claimed of it: the
/// string holds exactly those characters in that order, as std documents.
#[verifier::external_body]
fn string_from_chars(s: Vec<char>) -> (r: String)
    ensures
        r@ == s@,
{
    s.into_iter().collect()
}

fn push_str(out: &mut Vec<char>, s: &str)
    ensures
        final(out)@ == old(out)@ + s@,
{
    let n = s.unicode_len();
    let mut i: usize = 0;
    while i < n
        invariant
            n == s@.len(),
            i <= n,
            out@ == old(out)@ + s@.subrange(0, i as int),
        decreases n - i,
    {
        out.push(s.get_char(i));
        proof {
            assert(out@ =~= old(out)@ + s@.subrange(0, i + 1));
        }
        i = i + 1;
    }
    proof {
        assert(s@.subrange(0, n as int) =~= s@);
    }
}

fn push_chars(out: &mut Vec<char>, cs: &[char])
    ensures
        final(out)@ == old(out)@ + cs@,
{
    let mut i: usize = 0;
    while i < cs.len()
        invariant
            i <= cs@.len(),
            out@ == old(out)@ + cs@.subrange(0, i as int),
        decreases cs@.len() - i,
    {
        out.push(cs[i]);
        proof {
            assert(out@ =~= old(out)@ + cs@.subrange(0, i + 1));
        }
        i = i + 1;
    }
    proof {
        assert(cs@.subrange(0, cs@.len() as int) =~= cs@);
    }
}

fn hex_char(n: u8) -> (c: char)
    requires
        n < 16,
    ensures
        c == hex_digit(n as int),
{
    if n < 10 { (48u8 + n) as char } else { (65u8 + n - 10) as char }
}

fn push_hex8(out: &mut Vec<char>, b: u8)
    ensures
        final(out)@ == old(out)@ + hex8(b),
{
    out.push(hex_char(b / 16));
    out.push(hex_char(b % 16));
    proof {
        assert(out@ =~= old(out)@ + hex8(b));
    }
}

fn push_hex16(out: &mut Vec<char>, w: u16)
    ensures
        final(out)@ == old(out)@ + hex16(w),
{
    push_hex8(out, (w / 256) as u8);
    push_hex8(out, (w % 256) as u8);
    proof {
        assert(out@ =~= old(out)@ + hex16(w));
    }
}

fn push_reg(out: &mut Vec<char>, r: CPURegisterId)
    ensures
        final(out)@ == old(out)@ + reg_name(r),
{
    let name: &[char] = match r {
        CPURegisterId::A => &['A'],
        CPURegisterId::F => &['F'],
        CPURegisterId::B => &['B'],
        CPURegisterId::C => &['C'],
        CPURegisterId::D => &['D'],
        CPURegisterId::E => &['E'],
        CPURegisterId::H => &['H'],
        CPURegisterId::L => &['L'],
        CPURegisterId::PC => &['P', 'C'],
        CPURegisterId::SP => &['S', 'P'],
        CPURegisterId::AF => &['A', 'F'],
        CPURegisterId::BC => &['B', 'C'],
        CPURegisterId::DE => &['D', 'E'],
        CPURegisterId::HL => &['H', 'L'],
    };
    assert(name@ =~= reg_name(r));
    push_chars(out, name);
}

fn push_cond(out: &mut Vec<char>, c: Option<CondType>)
    ensures
        final(out)@ == old(out)@ + cond_text(c),
{
    match c {
        None => {
            assert(out@ =~= old(out)@ + cond_text(c));
        },
        Some(CondType::Z) => push_chars(out, &['Z', ',', ' ']),
        Some(CondType::C) => push_chars(out, &['C', ',', ' ']),
        Some(CondType::Nz) => push_chars(out, &['N', 'Z', ',', ' ']),
        Some(CondType::Nc) => push_chars(out, &['N', 'C', ',', ' ']),
    }
    proof {
        let a: [char; 3] = ['Z', ',', ' '];
        assert(cond_text(Some(CondType::Z)) =~= seq!['Z', ',', ' ']);
    }
}

impl Instruction {
    #[verifier::rlimit(40)]
    fn push_operands_0(&self, out: &mut Vec<char>, cpu: &LR35902CPU, addr: u16)
        requires
            cpu.wf(),
            operands_ok(*cpu, *self, addr),
            self.addr_mode == AddrMode::R || self.addr_mode == AddrMode::R_R || self.addr_mode == AddrMode::R_IMM || self.addr_mode == AddrMode::R16_SIMM || self.addr_mode == AddrMode::R_RADDR || self.addr_mode == AddrMode::R_IMMADDR || self.addr_mode == AddrMode::RADDR,
        ensures
            final(out)@ == old(out)@ + operands_text(*cpu, *self, addr),
    {
        let ghost o = out@;
        match self.addr_mode {
            AddrMode::R => {
                if let Some(r1) = self.reg1 {
                    push_reg(out, r1);
                }
            },
            AddrMode::R_R => {
                if let Some(r1) = self.reg1 {
                    push_reg(out, r1);
                    push_chars(out, &[',', ' ']);
                    push_reg(out, self.reg2.unwrap());
                }
            },
            AddrMode::R_IMM | AddrMode::R16_SIMM => {
                push_reg(out, self.reg1.unwrap());
                push_chars(out, &[',', ' ', '$', '0', 'x']);
                push_hex8(out, cpu.read(addr));
            },
            AddrMode::R_RADDR => {
                push_reg(out, self.reg1.unwrap());
                push_chars(out, &[',', ' ', '[']);
                push_reg(out, self.reg2.unwrap());
                push_chars(out, &[']']);
            },
            AddrMode::R_IMMADDR => {
                push_reg(out, self.reg1.unwrap());
                push_chars(out, &[',', ' ', '[', '0', 'x']);
                push_hex16(out, cpu.read16(addr));
                push_chars(out, &[']']);
            },
            AddrMode::RADDR => {
                push_chars(out, &['[']);
                push_reg(out, self.reg1.unwrap());
                push_chars(out, &[']']);
            },
            _ => {},
        }
        assert(out@ =~= o + operands_text(*cpu, *self, addr));
    }

    #[verifier::rlimit(40)]
    fn push_operands_1(&self, out: &mut Vec<char>, cpu: &LR35902CPU, addr: u16)
        requires
            cpu.wf(),
            operands_ok(*cpu, *self, addr),
            self.addr_mode == AddrMode::RADDR_R || self.addr_mode == AddrMode::RADDR_IMM || self.addr_mode == AddrMode::R16 || self.addr_mode == AddrMode::R16_R16 || self.addr_mode == AddrMode::R16_IMM16 || self.addr_mode == AddrMode::R16_R16_IMM,
        ensures
            final(out)@ == old(out)@ + operands_text(*cpu, *self, addr),
    {
        let ghost o = out@;
        match self.addr_mode {
            AddrMode::RADDR_R => {
                push_chars(out, &['[']);
                push_reg(out, self.reg1.unwrap());
                push_chars(out, &[']', ',', ' ']);
                push_reg(out, self.reg2.unwrap());
            },
            AddrMode::RADDR_IMM => {
                push_chars(out, &['[']);
                push_reg(out, self.reg1.unwrap());
                push_chars(out, &[']', ',', ' ', '$', '0', 'x']);
                push_hex8(out, cpu.read(addr));
            },
            AddrMode::R16 => {
                push_reg(out, self.reg1.unwrap());
            },
            AddrMode::R16_R16 => {
                push_reg(out, self.reg1.unwrap());
                push_chars(out, &[',', ' ']);
                push_reg(out, self.reg2.unwrap());
            },
            AddrMode::R16_IMM16 => {
                push_reg(out, self.reg1.unwrap());
                push_chars(out, &[',', ' ', '$', '0', 'x']);
                push_hex16(out, cpu.read16(addr));
            },
            AddrMode::R16_R16_IMM => {
                push_reg(out, self.reg1.unwrap());
                push_chars(out, &[',', ' ']);
                push_reg(out, self.reg2.unwrap());
                push_chars(out, &[',', ' ', '$', '0', 'x']);
                push_hex8(out, cpu.read(addr));
            },
            _ => {},
        }
        assert(out@ =~= o + operands_text(*cpu, *self, addr));
    }

    #[verifier::rlimit(40)]
    fn push_operands_2(&self, out: &mut Vec<char>, cpu: &LR35902CPU, addr: u16)
        requires
            cpu.wf(),
            operands_ok(*cpu, *self, addr),
            self.addr_mode == AddrMode::IMM_R || self.addr_mode == AddrMode::IMMADDR || self.addr_mode == AddrMode::IMM_RADDR || self.addr_mode == AddrMode::IMMADDR_R || self.addr_mode == AddrMode::IMMADDR_R16 || self.addr_mode == AddrMode::SIMM,
        ensures
            final(out)@ == old(out)@ + operands_text(*cpu, *self, addr),
    {
        let ghost o = out@;
        match self.addr_mode {
            AddrMode::IMM_R => {
                push_chars(out, &['$', '0', 'x']);
                push_hex8(out, cpu.read(addr));
                push_chars(out, &[',', ' ']);
                push_reg(out, self.reg2.unwrap());
            },
            AddrMode::IMMADDR => {
                push_chars(out, &['$', '0', 'x']);
                push_hex16(out, cpu.read16(addr));
            },
            AddrMode::IMM_RADDR => {
                push_chars(out, &['$', '0', 'x']);
                push_hex8(out, cpu.read(addr));
                push_chars(out, &[',', ' ', '[']);
                push_reg(out, self.reg2.unwrap());
                push_chars(out, &[']']);
            },
            AddrMode::IMMADDR_R | AddrMode::IMMADDR_R16 => {
                push_chars(out, &['[', '0', 'x']);
                push_hex16(out, cpu.read16(addr));
                push_chars(out, &[']', ',', ' ']);
                push_reg(out, self.reg2.unwrap());
            },
            AddrMode::SIMM => {
                push_chars(out, &['$', '0', 'x']);
                push_hex8(out, cpu.read(cpu.pc()));
            },
            _ => {},
        }
        assert(out@ =~= o + operands_text(*cpu, *self, addr));
    }

    /// Appends the operand text of the instruction, its operand bytes at `addr`.
    fn push_operands(&self, out: &mut Vec<char>, cpu: &LR35902CPU, addr: u16)
        requires
            cpu.wf(),
            operands_ok(*cpu, *self, addr),
        ensures
            final(out)@ == old(out)@ + operands_text(*cpu, *self, addr),
    {
        match self.addr_mode {
            AddrMode::R | AddrMode::R_R | AddrMode::R_IMM | AddrMode::R16_SIMM | AddrMode::R_RADDR | AddrMode::R_IMMADDR | AddrMode::RADDR => self.push_operands_0(out, cpu, addr),
            AddrMode::RADDR_R | AddrMode::RADDR_IMM | AddrMode::R16 | AddrMode::R16_R16 | AddrMode::R16_IMM16 | AddrMode::R16_R16_IMM => self.push_operands_1(out, cpu, addr),
            AddrMode::IMM_R | AddrMode::IMMADDR | AddrMode::IMM_RADDR | AddrMode::IMMADDR_R | AddrMode::IMMADDR_R16 | AddrMode::SIMM => self.push_operands_2(out, cpu, addr),
        }
    }

    /// The text of the instruction with its operand bytes at `addr`: the
    /// name, the condition and the operands.
    pub fn to_string(&self, cpu: &LR35902CPU, addr: u16) -> (r: String)
        requires
            cpu.wf(),
            operands_ok(*cpu, *self, addr),
        ensures
            r@ == instr_text(*cpu, *self, addr),
    {
        let mut out: Vec<char> = Vec::new();
        push_str(&mut out, self.name);
        out.push(' ');
        push_cond(&mut out, self.condition);
        self.push_operands(&mut out, cpu, addr);
        assert(out@ =~= instr_text(*cpu, *self, addr));
        string_from_chars(out)
    }
}

/// Whether the operand text of `i` can be made (see `operands_ok`).
fn operands_check(cpu: &LR35902CPU, i: &Instruction, addr: u16) -> (r: bool)
    requires
        cpu.wf(),
    ensures
        r == operands_ok(*cpu, *i, addr),
{
    let r1 = i.reg1.is_some();
    let r2 = i.reg2.is_some();
    match i.addr_mode {
        AddrMode::R => true,
        AddrMode::R_R => !r1 || r2,
        AddrMode::R_IMM | AddrMode::RADDR_IMM | AddrMode::R16_SIMM => r1 && cpu.readable(addr),
        AddrMode::R_RADDR | AddrMode::RADDR_R | AddrMode::R16_R16 => r1 && r2,
        AddrMode::R_IMMADDR | AddrMode::R16_IMM16 => r1 && cpu.readable16(addr),
        AddrMode::RADDR | AddrMode::R16 => r1,
        AddrMode::R16_R16_IMM => r1 && r2 && cpu.readable(addr),
        AddrMode::IMM_R | AddrMode::IMM_RADDR => r2 && cpu.readable(addr),
        AddrMode::IMMADDR => cpu.readable16(addr),
        AddrMode::IMMADDR_R | AddrMode::IMMADDR_R16 => r2 && cpu.readable16(addr),
        AddrMode::SIMM => cpu.readable(cpu.pc()),
    }
}

/// The length of an instruction of its mode (without a 0xCB prefix).
pub fn get_instr_size(instr: &Instruction) -> (r: u16)
    ensures
        r == mode_len(instr.addr_mode),
{
    match instr.addr_mode {
        AddrMode::R | AddrMode::R16 | AddrMode::R_R | AddrMode::R_RADDR | AddrMode::RADDR
        | AddrMode::RADDR_R | AddrMode::R16_R16 => 1,
        AddrMode::R_IMM | AddrMode::R16_SIMM | AddrMode::RADDR_IMM | AddrMode::R16_R16_IMM
        | AddrMode::IMM_R | AddrMode::IMM_RADDR | AddrMode::SIMM => 2,
        _ => 3,
    }
}

/// The opcode at `addr` and the length of its prefix, when it can be read.
fn opcode_check(cpu: &LR35902CPU, addr: u16) -> (r: Option<(u16, u16)>)
    requires
        cpu.wf(),
    ensures
        r is Some <==> opcode_ok(*cpu, addr),
        r matches Some((op, pre)) ==> op == opcode_at(*cpu, addr) && pre == prefix_len(*cpu, addr),
{
    if !cpu.readable(addr) {
        return None;
    }
    let b = cpu.read(addr);
    if b == 0xcb {
        if addr == 0xffff || !cpu.readable(addr + 1) {
            return None;
        }
        Some((0x100 + cpu.read(addr + 1) as u16, 1))
    } else {
        Some((b as u16, 0))
    }
}

/// Whether the instruction at `addr` can be disassembled (see `disas_at_ok`).
pub fn disas_at_check(cpu: &LR35902CPU, addr: u16) -> (r: bool)
    requires
        cpu.wf(),
    ensures
        r == disas_at_ok(*cpu, addr),
{
    match opcode_check(cpu, addr) {
        None => false,
        Some((op, pre)) => match decode(op) {
            None => true,
            Some(i) => addr as u32 + pre as u32 + 1 <= 0xffff && operands_check(cpu, &i, addr + pre + 1),
        },
    }
}

/// Disassembles the instruction at `addr`: its length and text (`??` with
/// length 1 for an unknown opcode).
pub fn disas_at(cpu: &LR35902CPU, addr: u16) -> (r: (u16, GbAsm))
    requires
        cpu.wf(),
        disas_at_ok(*cpu, addr),
    ensures
        r.0 == disas_len(*cpu, addr),
        r.1.addr == addr,
        r.1.text@ == disas_text(*cpu, addr),
{
    let mut opcode: u16 = cpu.read(addr) as u16;
    let mut prefixed: u16 = 0;
    if opcode == 0xcb {
        prefixed = 1;
        opcode = 0x100 + cpu.read(addr + 1) as u16;
    }
    match decode(opcode) {
        None => {
            let t = string_from_chars(vec!['?', '?']);
            assert(t@ =~= seq!['?', '?']);
            (1, GbAsm { addr, text: t })
        },
        Some(instr) => {
            let size = get_instr_size(&instr) + prefixed;
            (size, GbAsm { addr, text: instr.to_string(cpu, addr + prefixed + 1) })
        },
    }
}

/// Whether `size` instructions from PC on can be disassembled (see `disas_ok`).
pub fn can_disas(cpu: &LR35902CPU, size: usize) -> (r: bool)
    requires
        cpu.wf(),
    ensures
        r == disas_ok(*cpu, cpu.registers.pc, size as nat),
{
    let mut addr = cpu.pc();
    let mut i: usize = 0;
    while i < size
        invariant
            cpu.wf(),
            i <= size,
            disas_ok(*cpu, cpu.registers.pc, size as nat) == disas_ok(*cpu, addr, (size - i) as nat),
        decreases size - i,
    {
        if !disas_at_check(cpu, addr) {
            return false;
        }
        let (len, _) = disas_at(cpu, addr);
        if addr as u32 + len as u32 > 0xffff {
            return false;
        }
        addr = addr + len;
        i = i + 1;
    }
    true
}

/// Disassembles `size` instructions from PC on.
pub fn disas(cpu: &LR35902CPU, size: usize) -> (r: Vec<GbAsm>)
    requires
        cpu.wf(),
        disas_ok(*cpu, cpu.registers.pc, size as nat),
    ensures
        r@.len() == size,
        forall|k: int| 0 <= k < size ==> {
            let a = #[trigger] disas_addr(*cpu, cpu.registers.pc, k as nat);
            &&& r@[k].addr == a
            &&& r@[k].text@ == disas_text(*cpu, a)
        },
{
    let mut ret: Vec<GbAsm> = Vec::new();
    let mut addr = cpu.pc();
    let mut i: usize = 0;
    while i < size
        invariant
            cpu.wf(),
            i <= size,
            ret@.len() == i,
            addr == disas_addr(*cpu, cpu.registers.pc, i as nat),
            disas_ok(*cpu, addr, (size - i) as nat),
            forall|k: int| 0 <= k < i ==> {
                let a = #[trigger] disas_addr(*cpu, cpu.registers.pc, k as nat);
                &&& ret@[k].addr == a
                &&& ret@[k].text@ == disas_text(*cpu, a)
            },
        decreases size - i,
    {
        let (instr_size, text) = disas_at(cpu, addr);
        addr = addr + instr_size;
        ret.push(text);
        i = i + 1;
    }
    ret
}


/// The text of a branch condition names what the branch tests: it ends in
/// ", ", before that stands the letter of the flag tested ('Z' for zero, 'C'
/// for carry), with an 'N' in front when the branch is taken while that flag
/// is clear; for any flags, the branch is taken exactly when the named flag
/// has the value the text says.
pub proof fn lemma_cond_text_names_test(c: CondType, r: CPURegisters)
    ensures
        ({
            let t = cond_text(Some(c));
            let negated = t.len() == 4 && t[0] == 'N';
            let letter = t[t.len() - 3];
            &&& t.len() == 3 || negated
            &&& t.subrange(t.len() - 2, t.len() as int) == seq![',', ' ']
            &&& letter == 'Z' || letter == 'C'
            &&& cond_holds(r, Some(c)) == ((if letter == 'Z' { r.flag(FLAG_Z) } else { r.flag(FLAG_C) })
                == (if negated { 0u8 } else { 1u8 }))
        }),
{
    let t = cond_text(Some(c));
    assert(t.subrange(t.len() - 2, t.len() as int) =~= seq![',', ' ']);
}

} // verus!
