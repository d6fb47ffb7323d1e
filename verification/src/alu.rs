//! The arithmetic-logic unit: flag-producing byte operations.

use vstd::prelude::*;

verus! {

/// The arithmetic sub-operations the machine offers.
#[derive(Debug)]
pub enum OpAlu {
    ADD,
    SUB,
    AND,
    OR,
    XOR,
    NOT,
}

/// The arithmetic-logic unit. Its only state is the three flags, which are
/// overwritten by every evaluation and persist until the next one; the
/// control unit reads the zero flag for conditional jumps.
pub struct Alu {
    pub carry: bool,
    pub zero: bool,
    pub negative: bool,
}

/// The result byte of one operation: ADD and SUB wrap at 256, the bitwise
/// operations act on both bytes, and NOT complements the left operand alone
/// (the complement of `a` is `255 - a`).
pub open spec fn alu_result(op: OpAlu, lhs: u8, rhs: u8) -> u8 {
    match op {
        OpAlu::ADD => ((lhs + rhs) % 256) as u8,
        OpAlu::SUB => ((lhs - rhs) % 256) as u8,
        OpAlu::AND => lhs & rhs,
        OpAlu::OR => lhs | rhs,
        OpAlu::XOR => lhs ^ rhs,
        OpAlu::NOT => (255 - lhs) as u8,
    }
}

/// The carry flag of one operation: unsigned overflow for ADD, borrow for
/// SUB, and always false for the bitwise operations.
pub open spec fn alu_carry(op: OpAlu, lhs: u8, rhs: u8) -> bool {
    match op {
        OpAlu::ADD => lhs + rhs >= 256,
        OpAlu::SUB => rhs > lhs,
        OpAlu::AND => false,
        OpAlu::OR => false,
        OpAlu::XOR => false,
        OpAlu::NOT => false,
    }
}

impl Default for Alu {
    /// A fresh ALU has all three flags clear.
    fn default() -> (r: Alu)
        ensures
            !r.carry,
            !r.zero,
            !r.negative,
    {
        Alu { carry: false, zero: false, negative: false }
    }
}

impl Alu {
    /// Evaluate one operation over two bytes and overwrite the flags: the
    /// result and carry follow `alu_result` and `alu_carry`; zero is set
    /// exactly when the result byte is 0, and negative exactly when the
    /// result byte, read as two's complement, is below zero (value > 127).
    pub fn execute(&mut self, opcode: &OpAlu, lhs: u8, rhs: u8) -> (result: u8)
        ensures
            result == alu_result(*opcode, lhs, rhs),
            final(self).carry == alu_carry(*opcode, lhs, rhs),
            final(self).zero == (result == 0),
            final(self).negative == (result > 127),
    {
        match opcode {
            OpAlu::ADD => {
                let wide: u16 = lhs as u16 + rhs as u16;
                let result: u8 = (wide % 256) as u8;
                self.carry = wide > 255;
                self.zero = result == 0;
                self.negative = result > 127;
                result
            }
            OpAlu::SUB => {
                let wide: u16 = lhs as u16 + 256 - rhs as u16;
                let result: u8 = (wide % 256) as u8;
                proof {
                    vstd::arithmetic::div_mod::lemma_mod_add_multiples_vanish(
                        lhs - rhs,
                        256,
                    );
                }
                self.carry = rhs > lhs;
                self.zero = result == 0;
                self.negative = result > 127;
                result
            }
            OpAlu::AND => {
                let result: u8 = lhs & rhs;
                self.carry = false;
                self.zero = result == 0;
                self.negative = result > 127;
                result
            }
            OpAlu::OR => {
                let result: u8 = lhs | rhs;
                self.carry = false;
                self.zero = result == 0;
                self.negative = result > 127;
                result
            }
            OpAlu::XOR => {
                let result: u8 = lhs ^ rhs;
                self.carry = false;
                self.zero = result == 0;
                self.negative = result > 127;
                result
            }
            OpAlu::NOT => {
                let result: u8 = 255 - lhs;
                self.carry = false;
                self.zero = result == 0;
                self.negative = result > 127;
                result
            }
        }
    }
}

} // verus!
