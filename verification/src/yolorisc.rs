//! The machine core: registers, memory, program counter and flags, and the
//! execution of one decoded instruction against that state.

use vstd::prelude::*;

use crate::alu::{alu_carry, alu_result, Alu, OpAlu};

verus! {

/// The opcode space: the arithmetic sub-operations, carried by `ALU`, and
/// the flat data-movement, memory, output and control-transfer operations.
#[derive(Debug)]
pub enum OpCodes {
    ALU(OpAlu),
    MOV,
    PRT,
    END,
    ST,
    LD,
    JZ,
    JNZ,
    JMP,
}

/// One decoded instruction. The operand fields are raw: whether each is a
/// register index, an immediate or a memory address depends on the opcode.
#[derive(Debug)]
pub struct Instruction {
    pub opcode: OpCodes,
    pub dst: usize,
    pub lhs: usize,
    pub rhs: usize,
}

/// What one executed instruction asks of the surrounding driver: carry on,
/// print a register's value, or stop the run.
#[derive(Debug, PartialEq, Eq)]
pub enum Effect {
    Proceed,
    Output { register: usize, value: u8 },
    Halt,
}

/// The mathematical model of the machine state.
pub struct MachineState {
    pub registers: Seq<u8>,
    pub memory: Seq<u8>,
    pub program_counter: nat,
    pub carry: bool,
    pub zero: bool,
    pub negative: bool,
}

impl MachineState {
    /// A machine has 8 registers and 256 memory cells, never resized.
    pub open spec fn wf(self) -> bool {
        self.registers.len() == 8 && self.memory.len() == 256
    }

    /// The state at machine creation: all registers and memory cells zero,
    /// the program counter at 0, all flags clear.
    pub open spec fn init() -> MachineState {
        MachineState {
            registers: Seq::new(8, |i: int| 0u8),
            memory: Seq::new(256, |i: int| 0u8),
            program_counter: 0,
            carry: false,
            zero: false,
            negative: false,
        }
    }
}

/// The operand ranges an instruction must respect so that executing it
/// faults nowhere: register indices below 8, memory addresses below 256,
/// and a jump operand of at least 1, since the stored jump target is
/// `lhs - 1` (an operand of 0 would underflow; the machine leaves that
/// combination undefined rather than patching it silently).
pub open spec fn wf_instruction(i: Instruction) -> bool {
    match i.opcode {
        OpCodes::ALU(_) => i.dst < 8 && i.lhs < 8 && i.rhs < 8,
        OpCodes::MOV => i.dst < 8,
        OpCodes::PRT => i.dst < 8,
        OpCodes::END => true,
        OpCodes::ST => i.dst < 256 && i.lhs < 8,
        OpCodes::LD => i.dst < 8 && i.lhs < 256,
        OpCodes::JZ => i.lhs >= 1,
        OpCodes::JNZ => i.lhs >= 1,
        OpCodes::JMP => i.lhs >= 1,
    }
}

/// The state with the program counter overwritten by a jump with operand
/// `lhs`: the stored target is `lhs - 1`, because the driver increments the
/// counter once per executed instruction.
pub open spec fn jumped(pre: MachineState, lhs: usize) -> MachineState {
    MachineState {
        registers: pre.registers,
        memory: pre.memory,
        program_counter: (lhs - 1) as nat,
        carry: pre.carry,
        zero: pre.zero,
        negative: pre.negative,
    }
}

/// Executing one instruction: the new machine state and the effect handed
/// to the driver. Arithmetic opcodes write the ALU result into register
/// `dst` and overwrite the three flags; MOV writes the immediate `lhs`
/// reduced mod 256; ST and LD move a byte between register and memory; the
/// jumps overwrite the program counter (JZ and JNZ only as the zero flag
/// says); PRT and END change no state and only signal the driver.
pub open spec fn step(pre: MachineState, instr: Instruction) -> (MachineState, Effect) {
    match instr.opcode {
        OpCodes::ALU(op) => {
            let l = pre.registers[instr.lhs as int];
            let r = pre.registers[instr.rhs as int];
            let result = alu_result(op, l, r);
            (
                MachineState {
                    registers: pre.registers.update(instr.dst as int, result),
                    memory: pre.memory,
                    program_counter: pre.program_counter,
                    carry: alu_carry(op, l, r),
                    zero: result == 0,
                    negative: result > 127,
                },
                Effect::Proceed,
            )
        }
        OpCodes::MOV => (
            MachineState {
                registers: pre.registers.update(instr.dst as int, (instr.lhs % 256) as u8),
                memory: pre.memory,
                program_counter: pre.program_counter,
                carry: pre.carry,
                zero: pre.zero,
                negative: pre.negative,
            },
            Effect::Proceed,
        ),
        OpCodes::PRT => (
            pre,
            Effect::Output { register: instr.dst, value: pre.registers[instr.dst as int] },
        ),
        OpCodes::END => (pre, Effect::Halt),
        OpCodes::ST => (
            MachineState {
                registers: pre.registers,
                memory: pre.memory.update(instr.dst as int, pre.registers[instr.lhs as int]),
                program_counter: pre.program_counter,
                carry: pre.carry,
                zero: pre.zero,
                negative: pre.negative,
            },
            Effect::Proceed,
        ),
        OpCodes::LD => (
            MachineState {
                registers: pre.registers.update(instr.dst as int, pre.memory[instr.lhs as int]),
                memory: pre.memory,
                program_counter: pre.program_counter,
                carry: pre.carry,
                zero: pre.zero,
                negative: pre.negative,
            },
            Effect::Proceed,
        ),
        OpCodes::JZ => if pre.zero {
            (jumped(pre, instr.lhs), Effect::Proceed)
        } else {
            (pre, Effect::Proceed)
        },
        OpCodes::JNZ => if !pre.zero {
            (jumped(pre, instr.lhs), Effect::Proceed)
        } else {
            (pre, Effect::Proceed)
        },
        OpCodes::JMP => (jumped(pre, instr.lhs), Effect::Proceed),
    }
}

/// The numeric opcode encoding of the textual program format: 0 through 5
/// select the arithmetic sub-operation, 6 through 13 the flat operations;
/// every other value is a decode fault.
pub open spec fn decoded_opcode(v: int) -> Option<OpCodes> {
    if v == 0 {
        Some(OpCodes::ALU(OpAlu::ADD))
    } else if v == 1 {
        Some(OpCodes::ALU(OpAlu::SUB))
    } else if v == 2 {
        Some(OpCodes::ALU(OpAlu::AND))
    } else if v == 3 {
        Some(OpCodes::ALU(OpAlu::OR))
    } else if v == 4 {
        Some(OpCodes::ALU(OpAlu::XOR))
    } else if v == 5 {
        Some(OpCodes::ALU(OpAlu::NOT))
    } else if v == 6 {
        Some(OpCodes::MOV)
    } else if v == 7 {
        Some(OpCodes::PRT)
    } else if v == 8 {
        Some(OpCodes::END)
    } else if v == 9 {
        Some(OpCodes::ST)
    } else if v == 10 {
        Some(OpCodes::LD)
    } else if v == 11 {
        Some(OpCodes::JZ)
    } else if v == 12 {
        Some(OpCodes::JNZ)
    } else if v == 13 {
        Some(OpCodes::JMP)
    } else {
        None
    }
}

impl OpCodes {
    /// Decode a numeric opcode; `Err(())` is a decode fault.
    pub fn try_from(v: i32) -> (r: Result<OpCodes, ()>)
        ensures
            match r {
                Ok(op) => decoded_opcode(v as int) == Some(op),
                Err(_) => decoded_opcode(v as int) is None,
            },
    {
        match v {
            0 => Ok(OpCodes::ALU(OpAlu::ADD)),
            1 => Ok(OpCodes::ALU(OpAlu::SUB)),
            2 => Ok(OpCodes::ALU(OpAlu::AND)),
            3 => Ok(OpCodes::ALU(OpAlu::OR)),
            4 => Ok(OpCodes::ALU(OpAlu::XOR)),
            5 => Ok(OpCodes::ALU(OpAlu::NOT)),
            6 => Ok(OpCodes::MOV),
            7 => Ok(OpCodes::PRT),
            8 => Ok(OpCodes::END),
            9 => Ok(OpCodes::ST),
            10 => Ok(OpCodes::LD),
            11 => Ok(OpCodes::JZ),
            12 => Ok(OpCodes::JNZ),
            13 => Ok(OpCodes::JMP),
            _ => Err(()),
        }
    }
}

/// The machine core: register file, byte-addressable memory, program
/// counter, and the ALU whose flags steer the conditional jumps.
pub struct YoloRisc {
    pub registers: Vec<u8>,
    pub program_counter: usize,
    pub memory: Vec<u8>,
    pub alu: Alu,
}

impl View for YoloRisc {
    type V = MachineState;

    open spec fn view(&self) -> MachineState {
        MachineState {
            registers: self.registers@,
            memory: self.memory@,
            program_counter: self.program_counter as nat,
            carry: self.alu.carry,
            zero: self.alu.zero,
            negative: self.alu.negative,
        }
    }
}

impl Default for YoloRisc {
    /// Same as `new`: the all-zero initial machine.
    fn default() -> (r: YoloRisc)
        ensures
            r@ == MachineState::init(),
    {
        YoloRisc::new()
    }
}

impl YoloRisc {
    /// A fresh machine: every register and memory cell zero, the program
    /// counter at 0, all flags clear.
    pub fn new() -> (r: YoloRisc)
        ensures
            r@ == MachineState::init(),
    {
        let registers: Vec<u8> = vec![0u8; 8];
        let memory: Vec<u8> = vec![0u8; 256];
        let r = YoloRisc { registers, program_counter: 0, memory, alu: Alu::default() };
        proof {
            assert(r@.registers =~= MachineState::init().registers);
            assert(r@.memory =~= MachineState::init().memory);
        }
        r
    }

    /// Interpret exactly one decoded instruction: the new state and the
    /// effect are exactly those of `step` on the old state.
    pub fn execute(&mut self, instruction: &Instruction) -> (eff: Effect)
        requires
            old(self)@.wf(),
            wf_instruction(*instruction),
        ensures
            final(self)@.wf(),
            final(self)@ == step(old(self)@, *instruction).0,
            eff == step(old(self)@, *instruction).1,
    {
        match &instruction.opcode {
            OpCodes::ALU(opcode) => {
                let result = self.alu.execute(
                    opcode,
                    self.registers[instruction.lhs],
                    self.registers[instruction.rhs],
                );
                self.registers[instruction.dst] = result;
                Effect::Proceed
            }
            OpCodes::MOV => {
                self.registers[instruction.dst] = (instruction.lhs % 256) as u8;
                Effect::Proceed
            }
            OpCodes::PRT => {
                Effect::Output {
                    register: instruction.dst,
                    value: self.registers[instruction.dst],
                }
            }
            OpCodes::END => Effect::Halt,
            OpCodes::ST => {
                self.memory[instruction.dst] = self.registers[instruction.lhs];
                Effect::Proceed
            }
            OpCodes::LD => {
                self.registers[instruction.dst] = self.memory[instruction.lhs];
                Effect::Proceed
            }
            OpCodes::JZ => {
                if self.alu.zero {
                    self.program_counter = instruction.lhs - 1;
                }
                Effect::Proceed
            }
            OpCodes::JNZ => {
                if !self.alu.zero {
                    self.program_counter = instruction.lhs - 1;
                }
                Effect::Proceed
            }
            OpCodes::JMP => {
                self.program_counter = instruction.lhs - 1;
                Effect::Proceed
            }
        }
    }
}

impl Instruction {
    /// Checked counterpart of `wf_instruction`: lets an unverified caller
    /// test the operand ranges before handing an instruction to `execute`.
    pub fn is_well_formed(&self) -> (b: bool)
        ensures
            b == wf_instruction(*self),
    {
        match &self.opcode {
            OpCodes::ALU(_) => self.dst < 8 && self.lhs < 8 && self.rhs < 8,
            OpCodes::MOV => self.dst < 8,
            OpCodes::PRT => self.dst < 8,
            OpCodes::END => true,
            OpCodes::ST => self.dst < 256 && self.lhs < 8,
            OpCodes::LD => self.dst < 8 && self.lhs < 256,
            OpCodes::JZ => self.lhs >= 1,
            OpCodes::JNZ => self.lhs >= 1,
            OpCodes::JMP => self.lhs >= 1,
        }
    }
}

/// Writing an immediate with MOV and then reading that register yields the
/// immediate reduced mod 256.
pub proof fn lemma_move_then_read(s: MachineState, instr: Instruction)
    requires
        s.wf(),
        instr.opcode == OpCodes::MOV,
        wf_instruction(instr),
    ensures
        step(s, instr).0.registers[instr.dst as int] == instr.lhs % 256,
{
}

/// Storing a register to a memory cell and loading that cell into another
/// register round-trips: the loaded register holds the stored value.
pub proof fn lemma_store_load_round_trip(
    s: MachineState,
    store: Instruction,
    load: Instruction,
)
    requires
        s.wf(),
        store.opcode == OpCodes::ST,
        wf_instruction(store),
        load.opcode == OpCodes::LD,
        wf_instruction(load),
        load.lhs == store.dst,
    ensures
        step(step(s, store).0, load).0.registers[load.dst as int]
            == s.registers[store.lhs as int],
{
}

/// The cycle counter: pure telemetry, with no effect on execution results.
pub struct Clock {
    pub cycles: u64,
}

impl Default for Clock {
    /// A fresh clock starts at zero cycles.
    fn default() -> (r: Clock)
        ensures
            r.cycles == 0,
    {
        Clock { cycles: 0 }
    }
}

impl Clock {
    /// Count one cycle.
    pub fn tick(&mut self)
        requires
            old(self).cycles < u64::MAX,
        ensures
            final(self).cycles == old(self).cycles + 1,
    {
        self.cycles = self.cycles + 1;
    }
}

} // verus!
