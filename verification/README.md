# cpu3v2

A verified core for the CPU3v2 emulator: registers, the instruction encoding,
the ALU, the memory map and the execution of instructions, written in Verus.
Every public function carries a contract over an abstract machine state
(`system::Machine`), and Verus proves each one.

## Layout

- `src/register.rs`: the byte and word registers, their codes and names.
- `src/opcode.rs`: condition codes, ALU operations, the `Opcode` enum, and its
  encoding and decoding, with the proof that decoding an encoding gives the
  instruction back.
- `src/alu.rs`: what each ALU operation computes and the flags it gives.
- `src/system.rs`: the system state, the memory map and its ports.
- `src/system/step.rs`: conditions, the ALU on the system, instruction
  execution, interrupts and the step of the CPU.
- `src/system/gpu.rs`: the VRAM layout and the picture of the screen.
- `src/system/properties.rs`: properties that span operations (what a read
  gives back of a write, what a pair of instructions undoes).
- `src/disassemble.rs`: the assembly text of an instruction.
- `src/startup.rs`: creating a system from a ROM and initial register values.
- `app/`: the command-line emulator around the library: arguments, files,
  standard input and output, and SDL output.

## Standard input and output

The library does no I/O. When the next instruction reads the standard input
port and no value is there, `System::step` changes nothing and returns
`SystemStep::NeedsInput`; the host reads a byte, hands it over with
`System::provide_input` (`None` at the end of input, which reads as `0xFFFF`)
and steps again. Bytes written to the standard output port are collected and
taken by the host with `System::take_output`.
