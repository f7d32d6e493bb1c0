use vstd::prelude::*;
use vstd::slice::slice_subrange;
use vstd::utf8::valid_utf8;
use crate::mem::mbc3::MBC3;

verus! {

/// Decodes UTF-8 text with `std::str::from_utf8`.
/// Claimed of that function: it succeeds exactly on valid UTF-8 (as vstd's
/// `valid_utf8` defines it), and then gives the characters that the bytes
/// encode (vstd's `decode_utf8`).
#[verifier::external_body]
fn decode_utf8(bytes: &[u8]) -> (r: Option<String>)
    ensures
        r is Some <==> vstd::utf8::valid_utf8(bytes@),
        r is Some ==> r.unwrap()@ == vstd::utf8::decode_utf8(bytes@),
{
    match std::str::from_utf8(bytes) {
        Ok(s) => Some(s.to_string()),
        Err(_) => None,
    }
}

/// A header whose text fields are not valid UTF-8.
#[derive(Debug)]
pub struct CartridgeError;

/// The cartridge header (0x0134-0x014F).
pub struct CartridgeHeader {
    pub title: String,
    pub manufacturer_code: String,
    pub cgb_flag: u8,
    pub new_licensee_code: String,
    pub sgb_flag: u8,
    pub cartridge_type: u8,
    pub rom_size: u8,
    pub ram_size: u8,
    pub dest_code: u8,
    pub old_licensee_code: u8,
    pub rom_version: u8,
    pub header_checksum: u8,
    pub global_checksum: u16,
}

/// Whether the three text fields of a header (title 0-10, manufacturer code
/// 11-14, new licensee code 16-17) are UTF-8.
pub open spec fn header_text_ok(h: Seq<u8>) -> bool {
    &&& valid_utf8(h.subrange(0, 11))
    &&& valid_utf8(h.subrange(11, 15))
    &&& valid_utf8(h.subrange(16, 18))
}

impl CartridgeHeader {
    /// Field-by-field meaning of the 28 header bytes starting at 0x0134.
    pub open spec fn parsed_from(&self, h: Seq<u8>) -> bool {
        &&& self.title@ == vstd::utf8::decode_utf8(h.subrange(0, 11))
        &&& self.manufacturer_code@ == vstd::utf8::decode_utf8(h.subrange(11, 15))
        &&& self.cgb_flag == h[15]
        &&& self.new_licensee_code@ == vstd::utf8::decode_utf8(h.subrange(16, 18))
        &&& self.sgb_flag == h[18]
        &&& self.cartridge_type == h[19]
        &&& self.rom_size == h[20]
        &&& self.ram_size == h[21]
        &&& self.dest_code == h[22]
        &&& self.old_licensee_code == h[23]
        &&& self.rom_version == h[24]
        &&& self.header_checksum == h[25]
        &&& self.global_checksum == h[26] * 256 + h[27]
    }

    /// Parses the header bytes (from 0x0134), whose text fields are UTF-8.
    pub fn parse(header: &[u8]) -> (r: CartridgeHeader)
        requires
            header@.len() >= 28,
            header_text_ok(header@),
        ensures
            r.parsed_from(header@),
    {
        let title = match decode_utf8(slice_subrange(header, 0, 11)) {
            Some(t) => t,
            None => {
                proof { assert(false); }
                String::new()
            },
        };
        let manufacturer_code = match decode_utf8(slice_subrange(header, 11, 15)) {
            Some(t) => t,
            None => {
                proof { assert(false); }
                String::new()
            },
        };
        let new_licensee_code = match decode_utf8(slice_subrange(header, 16, 18)) {
            Some(t) => t,
            None => {
                proof { assert(false); }
                String::new()
            },
        };
        CartridgeHeader {
            title,
            manufacturer_code,
            cgb_flag: header[15],
            new_licensee_code,
            sgb_flag: header[18],
            cartridge_type: header[19],
            rom_size: header[20],
            ram_size: header[21],
            dest_code: header[22],
            old_licensee_code: header[23],
            rom_version: header[24],
            header_checksum: header[25],
            global_checksum: (header[26] as u16) * 256 + header[27] as u16,
        }
    }

    /// Same as `parse`.
    pub fn new(header: &[u8]) -> (r: CartridgeHeader)
        requires
            header@.len() >= 28,
            header_text_ok(header@),
        ensures
            r.parsed_from(header@),
    {
        Self::parse(header)
    }
}

/// Whether the text fields of the header bytes are UTF-8, as `parse` needs.
pub fn header_text_valid(header: &[u8]) -> (r: bool)
    requires
        header@.len() >= 28,
    ensures
        r == header_text_ok(header@),
{
    decode_utf8(slice_subrange(header, 0, 11)).is_some()
        && decode_utf8(slice_subrange(header, 11, 15)).is_some()
        && decode_utf8(slice_subrange(header, 16, 18)).is_some()
}

/// Whether the cartridge type byte (0x0147) names an MBC3 cartridge, and with
/// it whether the cartridge has a battery and a clock.
pub open spec fn mbc3_kind(cartridge_type: u8) -> Option<(bool, bool)> {
    if cartridge_type == 0x0f {
        Some((true, true))
    } else if cartridge_type == 0x10 {
        Some((true, true))
    } else if cartridge_type == 0x11 {
        Some((false, false))
    } else if cartridge_type == 0x12 {
        Some((false, false))
    } else if cartridge_type == 0x13 {
        Some((true, false))
    } else {
        None
    }
}

/// Whether the cartridge type byte names an MBC3 cartridge and, if so, its
/// battery and clock (see `mbc3_kind`).
pub fn mbc3_type(cartridge_type: u8) -> (r: Option<(bool, bool)>)
    ensures
        r == mbc3_kind(cartridge_type),
{
    if cartridge_type == 0x0f || cartridge_type == 0x10 {
        Some((true, true))
    } else if cartridge_type == 0x11 || cartridge_type == 0x12 {
        Some((false, false))
    } else if cartridge_type == 0x13 {
        Some((true, false))
    } else {
        None
    }
}

/// A cartridge: the ROM image and its header, and the bank controller when
/// there is one. Without one the image is mapped from 0x0000 and external RAM
/// reads 0xFF. `now` is the time (microseconds since the Unix epoch) that the
/// controller's clock uses for latches and writes, as last read.
pub struct Cartridge {
    pub header: CartridgeHeader,
    pub content: Vec<u8>,
    pub mbc: Option<MBC3>,
    pub now: i64,
}

impl Cartridge {
    pub open spec fn wf(&self) -> bool {
        self.mbc matches Some(m) ==> m.wf()
    }

    /// A cartridge from a ROM image; the header is read at 0x0134-0x014F.
    pub fn from_rom(content: Vec<u8>) -> (r: Result<Cartridge, CartridgeError>)
        requires
            content@.len() >= 0x150,
        ensures
            r is Ok <==> header_text_ok(content@.subrange(0x134, 0x150)),
            r matches Ok(c) ==> c.content@ == content@ && c.header.parsed_from(content@.subrange(0x134, 0x150))
                && c.mbc is None && c.now == 0 && c.wf(),
    {
        let h = slice_subrange(content.as_slice(), 0x134, 0x150);
        if !header_text_valid(h) {
            return Err(CartridgeError);
        }
        let header = CartridgeHeader::parse(h);
        Ok(Cartridge { header, content, mbc: None, now: 0 })
    }

    /// A cartridge from a ROM image with an MBC3 controller over it, when the
    /// header names one, with the RAM banks `sram` and its clock started at
    /// `now`; otherwise as `from_rom` (with `now` kept as the time).
    pub fn with_controller(content: Vec<u8>, sram: &[u8], now: i64) -> (r: Result<Cartridge, CartridgeError>)
        requires
            content@.len() >= 0x150,
            sram@.len() <= crate::mem::mbc3::SRAM_SIZE,
            sram@.len() % 0x2000 == 0,
        ensures
            r is Ok <==> header_text_ok(content@.subrange(0x134, 0x150)),
            r matches Ok(c) ==> {
                &&& c.content@ == content@
                &&& c.header.parsed_from(content@.subrange(0x134, 0x150))
                &&& c.wf()
                &&& c.now == now
                &&& match mbc3_kind(content@[0x147]) {
                    None => c.mbc is None,
                    Some((battery, clock)) => c.mbc matches Some(m)
                        && m.initial(content@, sram@, battery, clock, c.now),
                }
            },
    {
        let h = slice_subrange(content.as_slice(), 0x134, 0x150);
        if !header_text_valid(h) {
            return Err(CartridgeError);
        }
        let header = CartridgeHeader::parse(h);
        let mbc = match mbc3_type(header.cartridge_type) {
            Some((battery, clock)) => {
                let rom = vstd::slice::slice_to_vec(content.as_slice());
                Some(MBC3::new(rom, sram, battery, clock, now))
            },
            None => None,
        };
        Ok(Cartridge { header, content, mbc, now })
    }

    /// Whether a read at `addr` (ROM or external RAM) is safe: inside the image
    /// without a controller, else as the controller says.
    pub open spec fn read_safe(&self, addr: u16) -> bool {
        match self.mbc {
            Some(m) => m.read_safe(addr),
            None => addr <= 0x7fff ==> (addr as int) < self.content@.len(),
        }
    }

    /// The byte a read at `addr` returns.
    pub open spec fn read_value(&self, addr: u16) -> u8 {
        match self.mbc {
            Some(m) => m.read_value(addr),
            None => if addr <= 0x7fff { self.content@[addr as int] } else { 0xff },
        }
    }

    /// The cartridge after a write of `value` at `addr`: the controller's
    /// write, with the clock at `now`; a write to a RAM bank or register that
    /// does not exist, and any write without a controller, changes nothing.
    pub open spec fn after_write(self, addr: u16, value: u8) -> Cartridge {
        match self.mbc {
            Some(m) => if m.write_safe(addr) {
                Cartridge { mbc: Some(m.after_write(addr, value, self.now, self.now)), ..self }
            } else {
                self
            },
            None => self,
        }
    }

    /// Whether a read at `addr` is safe (see `read_safe`).
    pub fn readable(&self, addr: u16) -> (r: bool)
        requires
            self.wf(),
        ensures
            r == self.read_safe(addr),
    {
        match &self.mbc {
            Some(m) => m.readable(addr),
            None => addr > 0x7fff || (addr as usize) < self.content.len(),
        }
    }

    /// Reads a byte.
    pub fn read(&self, addr: u16) -> (r: u8)
        requires
            self.wf(),
            self.read_safe(addr),
        ensures
            r == self.read_value(addr),
    {
        match &self.mbc {
            Some(m) => m.read(addr),
            None => if addr <= 0x7fff { self.content[addr as usize] } else { 0xff },
        }
    }

    /// Writes a byte (see `after_write`).
    pub fn write(&mut self, addr: u16, value: u8)
        requires
            old(self).wf(),
        ensures
            final(self).wf(),
            *final(self) == old(self).after_write(addr, value),
    {
        let now = self.now;
        match self.mbc.take() {
            Some(mut m) => {
                if m.writable(addr) {
                    m.write(addr, value, now, now);
                }
                self.mbc = Some(m);
            },
            None => {},
        }
    }

    /// Sets the time (microseconds since the Unix epoch) that the
    /// controller's clock uses for latches and writes.
    pub fn set_time(&mut self, now: i64)
        ensures
            *final(self) == (Cartridge { now, ..*old(self) }),
    {
        self.now = now;
    }
}

} // verus!
