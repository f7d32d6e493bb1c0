# xenogb

A Game Boy (LR35902) emulation core written in Verus.

- `src/` is the verified library: the CPU and its instruction set, the bus
  and memories (RAM, boot ROM, cartridge header, MBC3 banking and clock, DMA),
  the memory-mapped devices (timer, joypad, serial port and the console that
  keeps what it received, PPU, APU), the
  disassembler, the debugger's state machine and measures, and the headless
  stop conditions. Each public function states its result over spec functions
  of the device state; the laws of the library (read after write, call and
  return, push and pop, inverse rotations, ...) are public proof functions.
- `app/` holds what runs around the core: file access, the emulation thread
  and its channels, audio output and printing the serial console.
- `tests/` runs the library on concrete programs and register values.
