# pinephone_emu

The logic of an emulator of the PinePhone board that runs NuttX, written and proved in
Verus. A core executes the program; before each instruction and at each access to a device
it asks this library what happens.

- `src/state.rs`: the machine's state, and the model that the contracts speak of.
- `src/cpu.rs`: what is done before an instruction, in steps that ask the core for values.
- `src/decode.rs`, `src/register.rs`, `src/sysreg.rs`, `src/text.rs`: from an instruction's
  bytes, through the disassembler's text, to an action.
- `src/interrupt.rs`, `src/gic.rs`: which interrupt is taken, and the interrupt controller.
- `src/uart.rs`, `src/mmio.rs`: the serial port, and registers without a model.
- `src/boot.rs`, `src/run.rs`: starting a program image, and the loop that runs it.
- `src/front.rs`: keys and lights.
- `src/laws.rs`: what holds across operations.

`app/` is the program around it: the Unicorn core, the terminal and the SFML window. Where a
number does not fit in 64 bits the library answers with a fault, and the program stops.

Two outside crates are called from the library: Capstone (`disassemble` in `src/decode.rs`)
and object (`parse_object` and `read_pe` in `src/boot.rs`). What is claimed of them stands
at those functions; what is claimed of `str::to_lowercase` stands in `src/text.rs`.
