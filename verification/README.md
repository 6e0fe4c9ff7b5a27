# emerald_core

The verified core of a Sega Dreamcast emulator, written in Verus. The
functions in `src/` carry contracts that Verus proves, except for a few small
wrappers marked `#[verifier::external_body]` (ELF parsing with goblin, and
the `format!` calls that render an address or an event as text): their
contracts are trusted, not proved, and their doc comments say what they
claim.

Layout:

- `src/scheduler.rs`, `src/fifo.rs`, `src/context.rs`: the event scheduler
  (kept sorted by deadline, without duplicates), a bounded FIFO and the call
  stack used for symbolication.
- `src/hw/sh4/`: the SH-4 CPU: its registers, the instruction table that
  decodes every opcode, the register-only instructions, the memory
  instructions (every MOV addressing mode, the control and system register
  loads and stores through the stack, TAS.B, OR.B, MAC.L, MOVCA.L, PREF),
  the delayed branches with their delay slots, SLEEP, LDC to SR and RTE with
  the interrupt check that follows them; the SH-4 side of the memory bus
  (the address map, system RAM and its mirror, AICA wave RAM, the operand
  cache, the store queues, the registers of the cache controller, bus state
  controller, DMA controller and timer unit); and the interrupt controller.
- `src/boot_memory.rs`: the memory a directly loaded program starts with
  (IP.BIN, a RAM snapshot, the BIOS's copy of itself, flash settings, system
  vectors and patched entry points).
- `src/run_loop.rs`: the decisions of the main loop: time slicing,
  frontend requests, due scheduler events, and blitting or rendering a frame.
- `src/hw/holly/`: the Holly system chip: its register writes, its
  scheduled events, interrupt routing, the AICA, Maple and channel-2 DMA
  channels, the sync pulse
  generator, the Maple bus, the PowerVR tile accelerator (parameter words,
  display-list building, texture conversion, caching and eviction, the
  renderer's texture-array slots, framebuffer
  decoding), the AICA sound block with its ARM7 core, the boot ROM and the
  disc image formats (.gdi parsing and sector reads, the .cdi trailer).
- `src/emulator.rs`: ELF loading (segments and symbols, parsed with goblin).
- `app/`: a command-line front end that reads the ROMs and images from disk,
  places an ELF program in memory and steps the SH-4 through the main loop's
  time slices, with the scheduler, the interrupt controller, Holly's
  interrupt logic and the RTC; and the floating-point conversions of vertex
  data for a renderer.
- `tests/`: tests of the library on concrete values.

Memory accesses that land on Holly's side of the bus (its registers, video
RAM, the tile accelerator, the boot ROM) or on the interrupt controller's,
the real-time clock's or the clock generator's registers are not carried out
by the SH-4 side of the bus; an instruction that makes one is not carried out
either, and says so.
