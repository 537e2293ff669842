//! The execution engine: register file, memory bus and the instruction
//! handlers of the modeled subset.
use vstd::prelude::*;
use crate::dispatch::{Dispatcher, Instr, primary_spec, secondary_spec};

verus! {

/// Number of byte slots in the register file.
pub const REGISTER_BYTES: usize = 12;

/// The eight 8-bit register views, each naming one byte slot.
#[derive(Clone, Copy, Debug, PartialEq, Eq, Structural)]
pub enum R8Address {
    A,
    F,
    B,
    C,
    D,
    E,
    H,
    L,
}

/// The six 16-bit register pairs, each naming two adjacent byte slots,
/// high byte first.
#[derive(Clone, Copy, Debug, PartialEq, Eq, Structural)]
pub enum R16Address {
    AF,
    BC,
    DE,
    HL,
    SP,
    PC,
}

impl R8Address {
    /// The byte slot this view addresses.
    pub open spec fn slot(self) -> int {
        match self {
            R8Address::A => 0,
            R8Address::F => 1,
            R8Address::B => 2,
            R8Address::C => 3,
            R8Address::D => 4,
            R8Address::E => 5,
            R8Address::H => 6,
            R8Address::L => 7,
        }
    }

    pub fn index(self) -> (r: usize)
        ensures
            r == self.slot(),
    {
        match self {
            R8Address::A => 0,
            R8Address::F => 1,
            R8Address::B => 2,
            R8Address::C => 3,
            R8Address::D => 4,
            R8Address::E => 5,
            R8Address::H => 6,
            R8Address::L => 7,
        }
    }
}

impl R16Address {
    /// The slot of the high byte; the low byte follows it.
    pub open spec fn high_slot(self) -> int {
        match self {
            R16Address::AF => 0,
            R16Address::BC => 2,
            R16Address::DE => 4,
            R16Address::HL => 6,
            R16Address::SP => 8,
            R16Address::PC => 10,
        }
    }

    pub open spec fn low_slot(self) -> int {
        self.high_slot() + 1
    }

    pub fn index(self) -> (r: usize)
        ensures
            r == self.high_slot(),
    {
        match self {
            R16Address::AF => 0,
            R16Address::BC => 2,
            R16Address::DE => 4,
            R16Address::HL => 6,
            R16Address::SP => 8,
            R16Address::PC => 10,
        }
    }
}

/// The 16-bit value of a high and a low byte.
pub open spec fn word_of(high: u8, low: u8) -> u16 {
    (high as int * 256 + low as int) as u16
}

/// The value a pair reads from a register file.
pub open spec fn pair_value(regs: Seq<u8>, pair: R16Address) -> u16 {
    word_of(regs[pair.high_slot()], regs[pair.low_slot()])
}

/// A register file after an 8-bit write.
pub open spec fn write8_spec(regs: Seq<u8>, view: R8Address, value: u8) -> Seq<u8> {
    regs.update(view.slot(), value)
}

/// A register file after a 16-bit write: high byte, then low byte.
pub open spec fn write16_spec(regs: Seq<u8>, pair: R16Address, value: u16) -> Seq<u8> {
    regs.update(pair.high_slot(), (value / 256) as u8).update(pair.low_slot(), (value % 256) as u8)
}

proof fn lemma_compose(high: u8, low: u8)
    ensures
        ((high as u16) << 8u16) | (low as u16) == word_of(high, low),
{
    assert(((high as u16) << 8u16) | (low as u16) == (high as int * 256 + low as int) as u16)
        by (bit_vector);
}

proof fn lemma_decompose(value: u16)
    ensures
        (value >> 8u16) as u8 == (value / 256) as u8,
        value as u8 == (value % 256) as u8,
        word_of((value / 256) as u8, (value % 256) as u8) == value,
{
    assert((value >> 8u16) as u8 == (value / 256) as u8) by (bit_vector);
    assert(value as u8 == (value % 256) as u8) by (bit_vector);
}

/// Cycles charged for each modeled instruction.
pub const INSTR_CYCLES: u64 = 4;

/// Cycles charged for an opcode with no table entry.
pub const UNKNOWN_CYCLES: u64 = 4;

/// Base cost of the escape byte, added to the cost of the opcode it enters.
pub const PREFIX_CYCLES: u64 = 4;

/// An opcode that had no table entry; the step went on without it.
#[derive(Clone, Copy, Debug, PartialEq, Eq, Structural)]
pub enum UnknownOpcode {
    Primary(u8),
    Secondary(u8),
}

/// What one executed step reports: its cost, and the opcode it could not
/// decode, if any.
#[derive(Clone, Copy, Debug, PartialEq, Eq, Structural)]
pub struct Step {
    pub cycles: u64,
    pub unknown: Option<UnknownOpcode>,
}

/// A fatal condition that ends a run.
#[derive(Clone, Copy, Debug, PartialEq, Eq, Structural)]
pub enum ExecError {
    /// The program counter points past the end of the program bytes.
    ProgramOverrun { pc: u16 },
}

/// The program counter after one fetch: exactly one more. A fetch happens
/// only below the program's length, which is at most 0xFFFF, so the sum
/// always fits in 16 bits.
pub open spec fn next_pc(pc: u16) -> u16 {
    (pc + 1) as u16
}

/// Registers and memory after an instruction handler has run.
pub open spec fn apply_spec(regs: Seq<u8>, mem: Seq<u8>, instr: Instr) -> (Seq<u8>, Seq<u8>) {
    match instr {
        Instr::LoadRegReg { dest, source } => (write8_spec(regs, dest, regs[source.slot()]), mem),
        Instr::LoadRegMem { dest } => (
            write8_spec(regs, dest, mem[pair_value(regs, R16Address::HL) as int]),
            mem,
        ),
        Instr::LoadMemReg { source } => (
            regs,
            mem.update(pair_value(regs, R16Address::HL) as int, regs[source.slot()]),
        ),
        _ => (regs, mem),
    }
}

/// Fetches an opcode at PC and runs its entry from the secondary table.
pub open spec fn prefixed_step_spec(regs: Seq<u8>, mem: Seq<u8>, rom: Seq<u8>) -> (
    Result<Step, ExecError>,
    Seq<u8>,
    Seq<u8>,
) {
    let pc = pair_value(regs, R16Address::PC);
    if pc >= rom.len() {
        (Err(ExecError::ProgramOverrun { pc }), regs, mem)
    } else {
        let op = rom[pc as int];
        let fetched = write16_spec(regs, R16Address::PC, next_pc(pc));
        match secondary_spec(op) {
            None => (
                Ok(Step { cycles: UNKNOWN_CYCLES, unknown: Some(UnknownOpcode::Secondary(op)) }),
                fetched,
                mem,
            ),
            Some(instr) => {
                let (r, m) = apply_spec(fetched, mem, instr);
                (Ok(Step { cycles: INSTR_CYCLES, unknown: None }), r, m)
            },
        }
    }
}

/// One step of the engine: the result, the registers and the memory after it.
pub open spec fn step_spec(regs: Seq<u8>, mem: Seq<u8>, rom: Seq<u8>) -> (
    Result<Step, ExecError>,
    Seq<u8>,
    Seq<u8>,
) {
    let pc = pair_value(regs, R16Address::PC);
    if pc >= rom.len() {
        (Err(ExecError::ProgramOverrun { pc }), regs, mem)
    } else {
        let op = rom[pc as int];
        let fetched = write16_spec(regs, R16Address::PC, next_pc(pc));
        match primary_spec(op) {
            None => (
                Ok(Step { cycles: UNKNOWN_CYCLES, unknown: Some(UnknownOpcode::Primary(op)) }),
                fetched,
                mem,
            ),
            Some(Instr::Prefix) => {
                let (r, rg, m) = prefixed_step_spec(fetched, mem, rom);
                match r {
                    Ok(s) => (
                        Ok(Step { cycles: (PREFIX_CYCLES + s.cycles) as u64, unknown: s.unknown }),
                        rg,
                        m,
                    ),
                    Err(e) => (Err(e), rg, m),
                }
            },
            Some(instr) => {
                let (r, m) = apply_spec(fetched, mem, instr);
                (Ok(Step { cycles: INSTR_CYCLES, unknown: None }), r, m)
            },
        }
    }
}

/// Size of the general-purpose memory array.
pub const MEMORY_BYTES: usize = 65536;

/// Largest program image: a 16-bit program counter must be able to point
/// one past its last byte.
pub const MAX_PROGRAM_BYTES: usize = 0xFFFF;

/// The processor: register file, general memory and the loaded program.
pub struct Cpu {
    registers: Vec<u8>,
    ram: Vec<u8>,
    rom: Vec<u8>,
    dispatch: Dispatcher,
}

impl Cpu {
    /// The register file, one byte per slot.
    pub closed spec fn regs(&self) -> Seq<u8> {
        self.registers@
    }

    /// The general memory array.
    pub closed spec fn mem(&self) -> Seq<u8> {
        self.ram@
    }

    /// The program bytes, addressed by the program counter.
    pub closed spec fn program(&self) -> Seq<u8> {
        self.rom@
    }

    pub open spec fn wf(&self) -> bool {
        &&& self.regs().len() == REGISTER_BYTES
        &&& self.mem().len() == MEMORY_BYTES
        &&& self.program().len() <= MAX_PROGRAM_BYTES
        &&& self.tables_ready()
    }

    /// The opcode tables hold their defined entries.
    pub closed spec fn tables_ready(&self) -> bool {
        self.dispatch.wf()
    }

    /// The value an 8-bit view holds.
    pub open spec fn r8(&self, view: R8Address) -> u8 {
        self.regs()[view.slot()]
    }

    /// The value a 16-bit pair holds.
    pub open spec fn r16(&self, pair: R16Address) -> u16 {
        pair_value(self.regs(), pair)
    }

    /// A processor with zeroed registers and memory, running `rom`.
    pub fn new(rom: Vec<u8>) -> (r: Cpu)
        requires
            rom@.len() <= MAX_PROGRAM_BYTES,
        ensures
            r.wf(),
            r.regs() == Seq::new(REGISTER_BYTES as nat, |_i: int| 0u8),
            r.mem() == Seq::new(MEMORY_BYTES as nat, |_i: int| 0u8),
            r.program() == rom@,
    {
        let registers: Vec<u8> = vec![0u8; REGISTER_BYTES];
        let ram: Vec<u8> = vec![0u8; MEMORY_BYTES];
        proof {
            assert(registers@ =~= Seq::new(REGISTER_BYTES as nat, |_i: int| 0u8));
            assert(ram@ =~= Seq::new(MEMORY_BYTES as nat, |_i: int| 0u8));
        }
        Cpu { registers, ram, rom, dispatch: Dispatcher::new() }
    }

    pub fn read_r8(&self, address: R8Address) -> (r: u8)
        requires
            self.wf(),
        ensures
            r == self.r8(address),
    {
        self.registers[address.index()]
    }

    pub fn write_r8(&mut self, address: R8Address, value: u8)
        requires
            old(self).wf(),
        ensures
            final(self).wf(),
            final(self).regs() == write8_spec(old(self).regs(), address, value),
            final(self).mem() == old(self).mem(),
            final(self).program() == old(self).program(),
    {
        self.registers.set(address.index(), value);
    }

    pub fn read_r16(&self, address: R16Address) -> (r: u16)
        requires
            self.wf(),
        ensures
            r == self.r16(address),
    {
        let register_index = address.index();
        let high = self.registers[register_index];
        let low = self.registers[register_index + 1];
        proof {
            lemma_compose(high, low);
        }
        ((high as u16) << 8u16) | (low as u16)
    }

    pub fn write_r16(&mut self, address: R16Address, value: u16)
        requires
            old(self).wf(),
        ensures
            final(self).wf(),
            final(self).regs() == write16_spec(old(self).regs(), address, value),
            final(self).mem() == old(self).mem(),
            final(self).program() == old(self).program(),
    {
        proof {
            lemma_decompose(value);
        }
        let high = (value >> 8u16) as u8;
        let low = value as u8;
        let register_index = address.index();
        self.registers.set(register_index, high);
        self.registers.set(register_index + 1, low);
    }

    pub fn read_ram(&self, address: u16) -> (r: u8)
        requires
            self.wf(),
        ensures
            r == self.mem()[address as int],
    {
        self.ram[address as usize]
    }

    pub fn write_ram(&mut self, address: u16, value: u8)
        requires
            old(self).wf(),
        ensures
            final(self).wf(),
            final(self).regs() == old(self).regs(),
            final(self).mem() == old(self).mem().update(address as int, value),
            final(self).program() == old(self).program(),
    {
        self.ram.set(address as usize, value);
    }

    /// Fills every register slot with `value`.
    pub fn set_all_registers(&mut self, value: u8)
        requires
            old(self).wf(),
        ensures
            final(self).wf(),
            final(self).regs() == Seq::new(REGISTER_BYTES as nat, |_i: int| value),
            final(self).mem() == old(self).mem(),
            final(self).program() == old(self).program(),
    {
        let mut i: usize = 0;
        while i < REGISTER_BYTES
            invariant
                0 <= i <= REGISTER_BYTES,
                self.wf(),
                self.mem() == old(self).mem(),
                self.program() == old(self).program(),
                forall|j: int| 0 <= j < i ==> self.regs()[j] == value,
            decreases REGISTER_BYTES - i,
        {
            self.registers.set(i, value);
            i = i + 1;
        }
        assert(self.regs() =~= Seq::new(REGISTER_BYTES as nat, |_i: int| value));
    }

    /// Reads the program byte at PC and advances PC by one.
    pub fn read_rom(&mut self) -> (r: Result<u8, ExecError>)
        requires
            old(self).wf(),
        ensures
            final(self).wf(),
            final(self).mem() == old(self).mem(),
            final(self).program() == old(self).program(),
            ({
                let pc = old(self).r16(R16Address::PC);
                if pc < old(self).program().len() {
                    &&& r == Ok::<u8, ExecError>(old(self).program()[pc as int])
                    &&& final(self).regs() == write16_spec(old(self).regs(), R16Address::PC, next_pc(pc))
                    &&& final(self).r16(R16Address::PC) == pc + 1
                } else {
                    &&& r == Err::<u8, ExecError>(ExecError::ProgramOverrun { pc })
                    &&& final(self).regs() == old(self).regs()
                }
            }),
    {
        let program_counter = self.read_r16(R16Address::PC);
        if (program_counter as usize) < self.rom.len() {
            let byte = self.rom[program_counter as usize];
            self.write_r16(R16Address::PC, program_counter + 1);
            Ok(byte)
        } else {
            Err(ExecError::ProgramOverrun { pc: program_counter })
        }
    }

    /// Copies register `source` into register `dest`.
    pub fn load_r8_r8(&mut self, dest: R8Address, source: R8Address) -> (r: u64)
        requires
            old(self).wf(),
        ensures
            final(self).wf(),
            final(self).program() == old(self).program(),
            (final(self).regs(), final(self).mem()) == apply_spec(
                old(self).regs(),
                old(self).mem(),
                Instr::LoadRegReg { dest, source },
            ),
            r == INSTR_CYCLES,
    {
        let value = self.read_r8(source);
        self.write_r8(dest, value);
        INSTR_CYCLES
    }

    /// Loads register `dest` from memory at the address in HL.
    pub fn load_r8_ram(&mut self, dest: R8Address) -> (r: u64)
        requires
            old(self).wf(),
        ensures
            final(self).wf(),
            final(self).program() == old(self).program(),
            (final(self).regs(), final(self).mem()) == apply_spec(
                old(self).regs(),
                old(self).mem(),
                Instr::LoadRegMem { dest },
            ),
            r == INSTR_CYCLES,
    {
        let ram_address = self.read_r16(R16Address::HL);
        let value = self.read_ram(ram_address);
        self.write_r8(dest, value);
        INSTR_CYCLES
    }

    /// Stores register `source` to memory at the address in HL.
    pub fn load_ram_r8(&mut self, source: R8Address) -> (r: u64)
        requires
            old(self).wf(),
        ensures
            final(self).wf(),
            final(self).program() == old(self).program(),
            (final(self).regs(), final(self).mem()) == apply_spec(
                old(self).regs(),
                old(self).mem(),
                Instr::LoadMemReg { source },
            ),
            r == INSTR_CYCLES,
    {
        let ram_address = self.read_r16(R16Address::HL);
        let value = self.read_r8(source);
        self.write_ram(ram_address, value);
        INSTR_CYCLES
    }

    /// Runs the handler of a decoded instruction other than the escape.
    fn run_handler(&mut self, instr: Instr) -> (r: u64)
        requires
            old(self).wf(),
            instr != Instr::Prefix,
        ensures
            final(self).wf(),
            final(self).program() == old(self).program(),
            (final(self).regs(), final(self).mem()) == apply_spec(
                old(self).regs(),
                old(self).mem(),
                instr,
            ),
            r == INSTR_CYCLES,
    {
        match instr {
            Instr::LoadRegReg { dest, source } => self.load_r8_r8(dest, source),
            Instr::LoadRegMem { dest } => self.load_r8_ram(dest),
            Instr::LoadMemReg { source } => self.load_ram_r8(source),
            _ => INSTR_CYCLES,
        }
    }

    /// Fetches one opcode and runs its entry from the secondary table.
    fn execute_prefixed_instruction(&mut self) -> (r: Result<Step, ExecError>)
        requires
            old(self).wf(),
        ensures
            final(self).wf(),
            final(self).program() == old(self).program(),
            (r, final(self).regs(), final(self).mem()) == prefixed_step_spec(
                old(self).regs(),
                old(self).mem(),
                old(self).program(),
            ),
    {
        let opcode = match self.read_rom() {
            Ok(op) => op,
            Err(e) => {
                return Err(e);
            },
        };
        match self.dispatch.decode_prefixed(opcode) {
            Some(instr) => {
                let cycles = self.run_handler(instr);
                Ok(Step { cycles, unknown: None })
            },
            None => Ok(Step { cycles: UNKNOWN_CYCLES, unknown: Some(UnknownOpcode::Secondary(opcode)) }),
        }
    }

    /// Executes one instruction: fetch, decode against the primary table,
    /// run. Returns the cycles charged and any opcode that had no entry.
    pub fn execute_instruction(&mut self) -> (r: Result<Step, ExecError>)
        requires
            old(self).wf(),
        ensures
            final(self).wf(),
            final(self).program() == old(self).program(),
            (r, final(self).regs(), final(self).mem()) == step_spec(
                old(self).regs(),
                old(self).mem(),
                old(self).program(),
            ),
    {
        let opcode = match self.read_rom() {
            Ok(op) => op,
            Err(e) => {
                return Err(e);
            },
        };
        match self.dispatch.decode(opcode) {
            Some(Instr::Prefix) => match self.execute_prefixed_instruction() {
                Ok(step) => Ok(Step { cycles: PREFIX_CYCLES + step.cycles, unknown: step.unknown }),
                Err(e) => Err(e),
            },
            Some(instr) => {
                let cycles = self.run_handler(instr);
                Ok(Step { cycles, unknown: None })
            },
            None => Ok(Step { cycles: UNKNOWN_CYCLES, unknown: Some(UnknownOpcode::Primary(opcode)) }),
        }
    }
}

/// Writing an 8-bit view and reading it back gives the written byte; every
/// other register slot, and so every other 8-bit view, keeps its value.
pub proof fn lemma_write8_read8(before: Cpu, after: Cpu, view: R8Address, value: u8)
    requires
        before.wf(),
        after.regs() == write8_spec(before.regs(), view, value),
    ensures
        after.r8(view) == value,
        forall|other: R8Address| other != view ==> #[trigger] after.r8(other) == before.r8(other),
        forall|i: int|
            0 <= i < REGISTER_BYTES && i != view.slot() ==> #[trigger] after.regs()[i]
                == before.regs()[i],
{
    assert forall|other: R8Address| other != view implies #[trigger] after.r8(other) == before.r8(
        other,
    ) by {
        assert(other.slot() != view.slot());
    }
}

/// Writing a 16-bit pair and reading it back gives the written word, which
/// is the pair's high byte shifted left by eight, or'ed with its low byte;
/// in particular it is composed from the 8-bit views of those two bytes.
pub proof fn lemma_write16_read16(before: Cpu, after: Cpu, pair: R16Address, value: u16)
    requires
        before.wf(),
        after.regs() == write16_spec(before.regs(), pair, value),
    ensures
        after.r16(pair) == value,
        value == ((after.regs()[pair.high_slot()] as u16) << 8u16) | (
        after.regs()[pair.low_slot()] as u16),
        forall|high: R8Address, low: R8Address|
            high.slot() == pair.high_slot() && low.slot() == pair.low_slot() ==> value == ((
            #[trigger] after.r8(high) as u16) << 8u16) | (#[trigger] after.r8(low) as u16),
        forall|i: int|
            0 <= i < REGISTER_BYTES && i != pair.high_slot() && i != pair.low_slot()
                ==> #[trigger] after.regs()[i] == before.regs()[i],
{
    lemma_decompose(value);
    lemma_compose(after.regs()[pair.high_slot()], after.regs()[pair.low_slot()]);
}

/// An opcode with no table entry changes nothing but the program counter,
/// which moves past it; the step succeeds, names the opcode, and charges
/// the default cost.
pub proof fn lemma_unknown_opcode(before: Cpu, after: Cpu, r: Result<Step, ExecError>)
    requires
        before.wf(),
        (r, after.regs(), after.mem()) == step_spec(before.regs(), before.mem(), before.program()),
        before.r16(R16Address::PC) < before.program().len(),
        primary_spec(before.program()[before.r16(R16Address::PC) as int]) is None,
    ensures
        r == Ok::<Step, ExecError>(
            Step {
                cycles: UNKNOWN_CYCLES,
                unknown: Some(
                    UnknownOpcode::Primary(before.program()[before.r16(R16Address::PC) as int]),
                ),
            },
        ),
        after.mem() == before.mem(),
        after.r16(R16Address::PC) == before.r16(R16Address::PC) + 1,
        forall|view: R8Address| #[trigger] after.r8(view) == before.r8(view),
        forall|pair: R16Address| pair != R16Address::PC ==> #[trigger] after.r16(pair) == before.r16(pair),
{
    let pc = before.r16(R16Address::PC);
    lemma_decompose(next_pc(pc));
    assert forall|pair: R16Address| pair != R16Address::PC implies #[trigger] after.r16(pair)
        == before.r16(pair) by {
        assert(pair.high_slot() < 10);
    }
}

/// An opcode after the escape byte with no entry in the secondary table
/// changes nothing but the program counter, which moves past it; that part
/// of the step succeeds, names the opcode, and charges the default cost.
pub proof fn lemma_unknown_prefixed_opcode(before: Cpu, after: Cpu, r: Result<Step, ExecError>)
    requires
        before.wf(),
        (r, after.regs(), after.mem()) == prefixed_step_spec(
            before.regs(),
            before.mem(),
            before.program(),
        ),
        before.r16(R16Address::PC) < before.program().len(),
        secondary_spec(before.program()[before.r16(R16Address::PC) as int]) is None,
    ensures
        r == Ok::<Step, ExecError>(
            Step {
                cycles: UNKNOWN_CYCLES,
                unknown: Some(
                    UnknownOpcode::Secondary(before.program()[before.r16(R16Address::PC) as int]),
                ),
            },
        ),
        after.mem() == before.mem(),
        after.r16(R16Address::PC) == before.r16(R16Address::PC) + 1,
        forall|view: R8Address| #[trigger] after.r8(view) == before.r8(view),
        forall|pair: R16Address| pair != R16Address::PC ==> #[trigger] after.r16(pair) == before.r16(pair),
{
    let pc = before.r16(R16Address::PC);
    lemma_decompose(next_pc(pc));
    assert forall|pair: R16Address| pair != R16Address::PC implies #[trigger] after.r16(pair)
        == before.r16(pair) by {
        assert(pair.high_slot() < 10);
    }
}

} // verus!
