use vstd::prelude::*;
use crate::cpu::cpu::LR35902CPU;
use crate::cpu::registers::{is_r8, CPURegisterId};

verus! {

/// An address given directly or as the current value of a register.
#[derive(Clone, Copy, Debug, PartialEq, Eq, Structural)]
pub struct DynAddr {
    pub addr: Option<u16>,
    pub reg: Option<CPURegisterId>,
}

impl DynAddr {
    pub fn new(addr: Option<u16>, reg: Option<CPURegisterId>) -> (r: Self)
        ensures
            r.addr == addr && r.reg == reg,
    {
        DynAddr { addr, reg }
    }

    /// The address it stands for: the given address, else the register's
    /// value (16-bit registers whole, 8-bit ones widened), else 0.
    pub open spec fn resolved(self, cpu: LR35902CPU) -> u16 {
        match self.addr {
            Some(a) => a,
            None => match self.reg {
                Some(r) => if is_r8(r) { cpu.registers.reg8(r) as u16 } else { cpu.registers.reg16(r) },
                None => 0,
            },
        }
    }

    pub fn resolve(&self, cpu: &LR35902CPU) -> (r: u16)
        ensures
            r == self.resolved(*cpu),
    {
        if let Some(addr) = self.addr {
            return addr;
        }
        if let Some(reg) = &self.reg {
            if reg.is_16bit() {
                return cpu.get_register16(reg);
            }
            return cpu.get_register(reg) as u16;
        }
        0
    }
}

/// A request from the debugger's user interface.
#[allow(non_camel_case_types)]
#[derive(Clone, Copy, Debug, PartialEq, Eq, Structural)]
pub enum DebuggerCommand {
    ENABLED(bool),
    CPU_CLOCK(u32),
    APU_MUTE_CHANNEL(u8),
    STEP,
    CONTINUE,
    BREAKPOINT(DynAddr),
}

} // verus!
