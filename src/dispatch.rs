//! Opcode tables: one for the primary opcode space and one for the space
//! entered through the escape byte, each indexed directly by opcode.
use vstd::prelude::*;
use crate::cpu::R8Address;

verus! {

/// The escape byte that enters the secondary table. It is fixed at 0xCD,
/// which lies outside the move block and NOP, so no other entry of the
/// primary table uses it. The secondary table is reached through this
/// constant alone; moving the escape means changing only this value.
pub const PREFIX_OPCODE: u8 = 0xCD;

/// Number of entries in each table.
pub const TABLE_SIZE: usize = 256;

/// An instruction handler of the modeled subset.
#[derive(Clone, Copy, Debug, PartialEq, Eq, Structural)]
pub enum Instr {
    Nop,
    /// Copy one 8-bit register into another.
    LoadRegReg { dest: R8Address, source: R8Address },
    /// Load a register from memory at the address in HL.
    LoadRegMem { dest: R8Address },
    /// Store a register to memory at the address in HL.
    LoadMemReg { source: R8Address },
    /// Continue with one more opcode from the secondary table.
    Prefix,
}

/// The register a three-bit operand field names; field 6 names memory at HL.
pub open spec fn operand_spec(code: int) -> Option<R8Address> {
    if code == 0 {
        Some(R8Address::B)
    } else if code == 1 {
        Some(R8Address::C)
    } else if code == 2 {
        Some(R8Address::D)
    } else if code == 3 {
        Some(R8Address::E)
    } else if code == 4 {
        Some(R8Address::H)
    } else if code == 5 {
        Some(R8Address::L)
    } else if code == 7 {
        Some(R8Address::A)
    } else {
        None
    }
}

/// The primary table: NOP, the escape byte, and the move block 0x40..=0x7F,
/// whose destination is in bits 5..3 and source in bits 2..0. The one move
/// with memory on both sides (0x76) has no entry.
pub open spec fn primary_spec(op: u8) -> Option<Instr> {
    if op == 0 {
        Some(Instr::Nop)
    } else if op == PREFIX_OPCODE {
        Some(Instr::Prefix)
    } else if 0x40 <= op < 0x80 {
        let dest = operand_spec((op as int - 0x40) / 8);
        let source = operand_spec(op as int % 8);
        match (dest, source) {
            (Some(d), Some(s)) => Some(Instr::LoadRegReg { dest: d, source: s }),
            (Some(d), None) => Some(Instr::LoadRegMem { dest: d }),
            (None, Some(s)) => Some(Instr::LoadMemReg { source: s }),
            (None, None) => None,
        }
    } else {
        None
    }
}

/// The secondary table; the modeled subset defines none of its entries.
pub open spec fn secondary_spec(op: u8) -> Option<Instr> {
    None
}

fn operand(code: u8) -> (r: Option<R8Address>)
    ensures
        r == operand_spec(code as int),
{
    match code {
        0 => Some(R8Address::B),
        1 => Some(R8Address::C),
        2 => Some(R8Address::D),
        3 => Some(R8Address::E),
        4 => Some(R8Address::H),
        5 => Some(R8Address::L),
        7 => Some(R8Address::A),
        _ => None,
    }
}

fn primary_entry(op: u8) -> (r: Option<Instr>)
    ensures
        r == primary_spec(op),
{
    if op == 0 {
        Some(Instr::Nop)
    } else if op == PREFIX_OPCODE {
        Some(Instr::Prefix)
    } else if 0x40 <= op && op < 0x80 {
        let dest = operand((op - 0x40) / 8);
        let source = operand(op % 8);
        match (dest, source) {
            (Some(d), Some(s)) => Some(Instr::LoadRegReg { dest: d, source: s }),
            (Some(d), None) => Some(Instr::LoadRegMem { dest: d }),
            (None, Some(s)) => Some(Instr::LoadMemReg { source: s }),
            (None, None) => None,
        }
    } else {
        None
    }
}

fn secondary_entry(op: u8) -> (r: Option<Instr>)
    ensures
        r == secondary_spec(op),
{
    None
}

/// The two opcode tables, built once; an absent entry is `None`.
pub struct Dispatcher {
    primary: Vec<Option<Instr>>,
    secondary: Vec<Option<Instr>>,
}

impl Dispatcher {
    pub closed spec fn wf(&self) -> bool {
        &&& self.primary@.len() == TABLE_SIZE
        &&& self.secondary@.len() == TABLE_SIZE
        &&& forall|i: int| 0 <= i < TABLE_SIZE ==> #[trigger] self.primary@[i] == primary_spec(i as u8)
        &&& forall|i: int| 0 <= i < TABLE_SIZE ==> #[trigger] self.secondary@[i] == secondary_spec(i as u8)
    }

    pub fn new() -> (r: Dispatcher)
        ensures
            r.wf(),
    {
        let mut primary: Vec<Option<Instr>> = Vec::new();
        let mut secondary: Vec<Option<Instr>> = Vec::new();
        let mut op: usize = 0;
        while op < TABLE_SIZE
            invariant
                0 <= op <= TABLE_SIZE,
                primary@.len() == op,
                secondary@.len() == op,
                forall|i: int| 0 <= i < op ==> #[trigger] primary@[i] == primary_spec(i as u8),
                forall|i: int| 0 <= i < op ==> #[trigger] secondary@[i] == secondary_spec(i as u8),
            decreases TABLE_SIZE - op,
        {
            primary.push(primary_entry(op as u8));
            secondary.push(secondary_entry(op as u8));
            op = op + 1;
        }
        Dispatcher { primary, secondary }
    }

    /// Looks an opcode up in the primary table.
    pub fn decode(&self, op: u8) -> (r: Option<Instr>)
        requires
            self.wf(),
        ensures
            r == primary_spec(op),
    {
        self.primary[op as usize]
    }

    /// Looks an opcode up in the secondary table.
    pub fn decode_prefixed(&self, op: u8) -> (r: Option<Instr>)
        requires
            self.wf(),
        ensures
            r == secondary_spec(op),
    {
        self.secondary[op as usize]
    }
}

} // verus!
