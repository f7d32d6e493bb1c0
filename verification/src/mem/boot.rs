use vstd::prelude::*;

verus! {

/// The boot ROM to run before the cartridge.
#[derive(Debug, Copy, Clone, PartialEq, Eq, Structural)]
pub enum BootRom {
    CGB,
    CGB0,
    DMG,
    DMG0,
    MGB,
    NONE,
}

/// Whether a boot ROM image is a CGB one (two parts) rather than a 256-byte one.
pub open spec fn is_cgb(rom: BootRom) -> bool {
    rom == BootRom::CGB || rom == BootRom::CGB0
}

/// Splits a boot ROM image into the part mapped at 0x0000-0x00FF and, for CGB
/// images, the part mapped at 0x0200-0x08FF. `NONE` gives 256 zero bytes.
pub fn get_boot_rom(rom: BootRom, image: &[u8]) -> (r: (Vec<u8>, Option<Vec<u8>>))
    requires
        rom != BootRom::NONE && !is_cgb(rom) ==> image@.len() == 0x100,
        is_cgb(rom) ==> image@.len() >= 0x900,
    ensures
        r.0@.len() == 0x100,
        rom == BootRom::NONE ==> r.0@ == Seq::new(0x100, |i: int| 0u8) && r.1 is None,
        rom != BootRom::NONE && !is_cgb(rom) ==> r.0@ == image@ && r.1 is None,
        is_cgb(rom) ==> r.0@ == image@.subrange(0, 0x100) && r.1 is Some
            && r.1.unwrap()@ == image@.subrange(0x200, 0x900),
{
    if rom == BootRom::NONE {
        let mut v: Vec<u8> = Vec::new();
        let mut i: usize = 0;
        while i < 0x100
            invariant
                i <= 0x100,
                v@ == Seq::new(i as nat, |k: int| 0u8),
            decreases 0x100 - i,
        {
            v.push(0);
            i = i + 1;
        }
        (v, None)
    } else if rom == BootRom::CGB || rom == BootRom::CGB0 {
        let first = vstd::slice::slice_to_vec(vstd::slice::slice_subrange(image, 0, 0x100));
        let second = vstd::slice::slice_to_vec(vstd::slice::slice_subrange(image, 0x200, 0x900));
        (first, Some(second))
    } else {
        (vstd::slice::slice_to_vec(image), None)
    }
}

} // verus!
