use vstd::prelude::*;

verus! {

/// SC bits of a transfer started with the internal clock.
pub const TRANSFER_START: u8 = 0x81;

/// The serial port registers SB (0xFF01) and SC (0xFF02). No link partner is
/// attached: a byte whose transfer is started can be taken out with `get_char`.
pub struct Serial {
    pub sb: u8,
    pub sc: u8,
}

impl Default for Serial {
    fn default() -> (r: Self)
        ensures
            r.sb == 0 && r.sc == 0,
    {
        Serial { sb: 0, sc: 0 }
    }
}

impl Serial {
    pub open spec fn read_value(&self, addr: u16) -> u8 {
        if addr == 0xff01 { self.sb } else { self.sc }
    }

    /// The state after a write of `value` at `addr`.
    pub open spec fn after_write(self, addr: u16, value: u8) -> Serial {
        if addr == 0xff01 { Serial { sb: value, ..self } } else { Serial { sc: value, ..self } }
    }

    pub fn write(&mut self, addr: u16, value: u8)
        requires
            addr == 0xff01 || addr == 0xff02,
        ensures
            *final(self) == old(self).after_write(addr, value),
            addr == 0xff01 ==> final(self).sb == value && final(self).sc == old(self).sc,
            addr == 0xff02 ==> final(self).sc == value && final(self).sb == old(self).sb,
    {
        if addr == 0xff01 {
            self.sb = value;
        } else {
            self.sc = value;
        }
    }

    pub fn read(&self, addr: u16) -> (r: u8)
        requires
            addr == 0xff01 || addr == 0xff02,
        ensures
            r == self.read_value(addr),
    {
        if addr == 0xff01 { self.sb } else { self.sc }
    }

    /// Completes a started transfer: returns SB and clears the start bit; with no
    /// transfer pending the result is 0.
    pub fn get_char(&mut self) -> (r: u8)
        ensures
            old(self).sc == TRANSFER_START ==> r == old(self).sb && final(self).sc == 0x01
                && final(self).sb == old(self).sb,
            old(self).sc != TRANSFER_START ==> r == 0 && *final(self) == *old(self),
    {
        if self.sc == TRANSFER_START {
            self.sc = 0x01;
            self.sb
        } else {
            0
        }
    }
}


/// Size of the buffer that keeps the text received on the serial port.
pub const CONSOLE_SIZE: usize = 0x100;

/// The text received on the serial port: a buffer of 256 bytes filled from
/// the start, the write index wrapping around to 0 after the last byte.
pub struct SerialConsole {
    pub buf: Vec<u8>,
    pub idx: u8,
}

impl SerialConsole {
    pub open spec fn wf(&self) -> bool {
        self.buf@.len() == CONSOLE_SIZE
    }

    /// The bytes received so far: the buffer before the write index.
    pub open spec fn received(&self) -> Seq<u8> {
        self.buf@.subrange(0, self.idx as int)
    }

    /// An empty console: a zeroed buffer, writing at index 0.
    pub fn new() -> (r: Self)
        ensures
            r.wf(),
            r.idx == 0,
            forall|i: int| 0 <= i < CONSOLE_SIZE ==> r.buf@[i] == 0,
    {
        let mut buf: Vec<u8> = Vec::new();
        let mut i: usize = 0;
        while i < CONSOLE_SIZE
            invariant
                i <= CONSOLE_SIZE,
                buf@.len() == i,
                forall|j: int| 0 <= j < i ==> buf@[j] == 0,
            decreases CONSOLE_SIZE - i,
        {
            buf.push(0);
            i = i + 1;
        }
        SerialConsole { buf, idx: 0 }
    }

    /// Takes a finished transfer from `serial` (as `Serial::get_char` does). A
    /// byte other than 0 is stored at the write index, which then moves on by
    /// one, from 255 back to 0. Returns the byte taken (0 when none was).
    pub fn receive(&mut self, serial: &mut Serial) -> (r: u8)
        requires
            old(self).wf(),
        ensures
            final(self).wf(),
            old(serial).sc == TRANSFER_START ==> r == old(serial).sb && final(serial).sc == 0x01
                && final(serial).sb == old(serial).sb,
            old(serial).sc != TRANSFER_START ==> r == 0 && *final(serial) == *old(serial),
            r != 0 ==> final(self).buf@ == old(self).buf@.update(old(self).idx as int, r)
                && final(self).idx == (old(self).idx + 1) % 0x100,
            r == 0 ==> *final(self) == *old(self),
    {
        let c: u8 = serial.get_char();
        if c != 0 {
            let i: usize = self.idx as usize;
            self.buf.set(i, c);
            self.idx = self.idx.wrapping_add(1);
        }
        c
    }

    /// The bytes received so far, in order: the buffer before the write index.
    pub fn received_bytes(&self) -> (r: Vec<u8>)
        requires
            self.wf(),
        ensures
            r@ == self.received(),
    {
        let n: usize = self.idx as usize;
        let mut r: Vec<u8> = Vec::new();
        let mut i: usize = 0;
        while i < n
            invariant
                n == self.idx,
                self.wf(),
                i <= n,
                r@ == self.buf@.subrange(0, i as int),
            decreases n - i,
        {
            r.push(self.buf[i]);
            i = i + 1;
            proof {
                assert(r@ =~= self.buf@.subrange(0, i as int));
            }
        }
        r
    }
}

} // verus!
