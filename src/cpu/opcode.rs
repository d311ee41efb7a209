//! Instruction words: their operand fields, the decoder, and the dispatch.
use vstd::prelude::*;

pub mod functions;

use super::state::{step_result, CpuError, CpuState};
use super::Cpu;
use functions::{
    add_const, add_reg, add_reg_i, and_reg, bitwise_rand, bitwise_reg, call, call_sub, disp_clear,
    display, get_delay, get_key_block, goto, jmp_offset, left_shift_reg, mvi, not_eq_reg, reg_dump,
    reg_load, ret_sub, right_shift_reg, set_bcd, set_delay_timer, set_i_sprite, set_reg,
    set_sound_timer, skip_eq, skip_not_eq, skip_not_on_key, skip_on_key, skip_reg_eq, sub_reg,
    sub_reg_store, xor_reg,
};

verus! {

/// The operand fields of an instruction word `CXYN`: `x` and `y` are the
/// second and third nibbles, `n` the fourth, `nn` the low byte and `nnn` the
/// low 12 bits.
#[derive(Debug, Clone, Copy, PartialEq, Eq, Structural)]
pub struct Args {
    pub x: usize,
    pub y: usize,
    pub n: u8,
    pub nn: u8,
    pub nnn: u16,
}

impl Args {
    /// The ranges that the fields of a decoded word fall in.
    pub open spec fn wf(self) -> bool {
        &&& self.x < 16
        &&& self.y < 16
        &&& self.n < 16
        &&& self.nnn < 0x1000
    }
}

/// The operand fields of an instruction word.
pub open spec fn args_of(word: u16) -> Args {
    Args {
        x: ((word / 256) % 16) as usize,
        y: ((word / 16) % 16) as usize,
        n: (word % 16) as u8,
        nn: (word % 256) as u8,
        nnn: (word % 4096) as u16,
    }
}

/// The operations of the instruction set, one per instruction.
#[derive(Debug, Clone, Copy, PartialEq, Eq, Structural)]
pub enum Instruction {
    /// `0NNN`: a machine-code routine, which this machine does not run.
    Call,
    /// `00E0`: clear the display.
    DispClear,
    /// `00EE`: return from a subroutine.
    RetSub,
    /// `1NNN`: jump to NNN.
    Goto,
    /// `2NNN`: call the subroutine at NNN.
    CallSub,
    /// `3XNN`: skip if Vx == NN.
    SkipEq,
    /// `4XNN`: skip if Vx != NN.
    SkipNotEq,
    /// `5XY0`: skip if Vx == Vy.
    SkipRegEq,
    /// `6XNN`: Vx := NN.
    SetConst,
    /// `7XNN`: Vx += NN, without carry.
    AddConst,
    /// `8XY0`: Vx := Vy.
    SetReg,
    /// `8XY1`: Vx |= Vy.
    BitwiseReg,
    /// `8XY2`: Vx &= Vy.
    AndReg,
    /// `8XY3`: Vx ^= Vy.
    XorReg,
    /// `8XY4`: Vx += Vy, carry in VF.
    AddReg,
    /// `8XY5`: Vx -= Vy, no-borrow in VF.
    SubReg,
    /// `8XY6`: Vx >>= 1, the bit shifted out in VF.
    RightShiftReg,
    /// `8XY7`: Vx := Vy - Vx, no-borrow in VF.
    SubRegStore,
    /// `8XYE`: Vx <<= 1, the bit shifted out in VF.
    LeftShiftReg,
    /// `9XY0`: skip if Vx != Vy.
    NotEqReg,
    /// `ANNN`: I := NNN.
    Mvi,
    /// `BNNN`: jump to V0 + NNN.
    JmpOffset,
    /// `CXNN`: Vx := random byte AND NN.
    BitwiseRand,
    /// `DXYN`: draw an N-row sprite from I at (Vx, Vy).
    Display,
    /// `EX9E`: skip if key Vx is pressed.
    SkipOnKey,
    /// `EXA1`: skip if key Vx is not pressed.
    SkipNotOnKey,
    /// `FX07`: Vx := delay timer.
    GetDelay,
    /// `FX0A`: wait for a key press and store the key in Vx.
    GetKeyBlock,
    /// `FX15`: delay timer := Vx.
    SetDelayTimer,
    /// `FX18`: sound timer := Vx.
    SetSoundTimer,
    /// `FX1E`: I += Vx.
    AddRegI,
    /// `FX29`: I := address of the font glyph for digit Vx.
    SetISprite,
    /// `FX33`: the decimal digits of Vx at I, I+1, I+2.
    SetBcd,
    /// `FX55`: V0..Vx to memory at I.
    RegDump,
    /// `FX65`: V0..Vx from memory at I.
    RegLoad,
}

/// The instruction that a word encodes, if any. The top nibble selects the
/// class; classes 0, 8, E and F are told apart by the low nibble or byte.
pub open spec fn decode(word: u16) -> Option<Instruction> {
    let n = word % 16;
    let nn = word % 256;
    match word / 4096 {
        0 => if nn == 0xE0 {
            Some(Instruction::DispClear)
        } else if nn == 0xEE {
            Some(Instruction::RetSub)
        } else {
            None
        },
        1 => Some(Instruction::Goto),
        2 => Some(Instruction::CallSub),
        3 => Some(Instruction::SkipEq),
        4 => Some(Instruction::SkipNotEq),
        5 => Some(Instruction::SkipRegEq),
        6 => Some(Instruction::SetConst),
        7 => Some(Instruction::AddConst),
        8 => if n == 0x0 {
            Some(Instruction::SetReg)
        } else if n == 0x1 {
            Some(Instruction::BitwiseReg)
        } else if n == 0x2 {
            Some(Instruction::AndReg)
        } else if n == 0x3 {
            Some(Instruction::XorReg)
        } else if n == 0x4 {
            Some(Instruction::AddReg)
        } else if n == 0x5 {
            Some(Instruction::SubReg)
        } else if n == 0x6 {
            Some(Instruction::RightShiftReg)
        } else if n == 0x7 {
            Some(Instruction::SubRegStore)
        } else if n == 0xE {
            Some(Instruction::LeftShiftReg)
        } else {
            None
        },
        9 => Some(Instruction::NotEqReg),
        10 => Some(Instruction::Mvi),
        11 => Some(Instruction::JmpOffset),
        12 => Some(Instruction::BitwiseRand),
        13 => Some(Instruction::Display),
        14 => if nn == 0x9E {
            Some(Instruction::SkipOnKey)
        } else if nn == 0xA1 {
            Some(Instruction::SkipNotOnKey)
        } else {
            None
        },
        _ => if nn == 0x07 {
            Some(Instruction::GetDelay)
        } else if nn == 0x0A {
            Some(Instruction::GetKeyBlock)
        } else if nn == 0x15 {
            Some(Instruction::SetDelayTimer)
        } else if nn == 0x18 {
            Some(Instruction::SetSoundTimer)
        } else if nn == 0x1E {
            Some(Instruction::AddRegI)
        } else if nn == 0x29 {
            Some(Instruction::SetISprite)
        } else if nn == 0x33 {
            Some(Instruction::SetBcd)
        } else if nn == 0x55 {
            Some(Instruction::RegDump)
        } else if nn == 0x65 {
            Some(Instruction::RegLoad)
        } else {
            None
        },
    }
}

/// What an instruction does to a state. `random` is the byte that the
/// random instruction draws; no other instruction reads it.
pub open spec fn execute(
    s: CpuState,
    op: Instruction,
    a: Args,
    random: u8,
) -> Result<CpuState, CpuError> {
    let (x, y) = (a.x as int, a.y as int);
    match op {
        Instruction::Call => Err(CpuError::UnknownOpcode(a.nnn)),
        Instruction::DispClear => Ok(s.disp_clear()),
        Instruction::RetSub => s.ret_sub(),
        Instruction::Goto => Ok(s.goto(a.nnn)),
        Instruction::CallSub => s.call_sub(a.nnn),
        Instruction::SkipEq => Ok(s.skip_eq(x, a.nn)),
        Instruction::SkipNotEq => Ok(s.skip_not_eq(x, a.nn)),
        Instruction::SkipRegEq => Ok(s.skip_reg_eq(x, y)),
        Instruction::SetConst => Ok(s.set(x, a.nn)),
        Instruction::AddConst => Ok(s.add_const(x, a.nn)),
        Instruction::SetReg => Ok(s.set_reg(x, y)),
        Instruction::BitwiseReg => Ok(s.bitwise_reg(x, y)),
        Instruction::AndReg => Ok(s.and_reg(x, y)),
        Instruction::XorReg => Ok(s.xor_reg(x, y)),
        Instruction::AddReg => Ok(s.add_reg(x, y)),
        Instruction::SubReg => Ok(s.sub_reg(x, y)),
        Instruction::RightShiftReg => Ok(s.right_shift_reg(x)),
        Instruction::SubRegStore => Ok(s.sub_reg_store(x, y)),
        Instruction::LeftShiftReg => Ok(s.left_shift_reg(x)),
        Instruction::NotEqReg => Ok(s.not_eq_reg(x, y)),
        Instruction::Mvi => Ok(s.mvi(a.nnn)),
        Instruction::JmpOffset => Ok(s.jmp_offset(a.nnn)),
        Instruction::BitwiseRand => Ok(s.bitwise_rand(x, a.nn, random)),
        Instruction::Display => s.display(x, y, a.n as int),
        Instruction::SkipOnKey => s.skip_on_key(x),
        Instruction::SkipNotOnKey => s.skip_not_on_key(x),
        Instruction::GetDelay => Ok(s.get_delay(x)),
        Instruction::GetKeyBlock => Ok(s.get_key_block(x)),
        Instruction::SetDelayTimer => Ok(s.set_delay_timer(x)),
        Instruction::SetSoundTimer => Ok(s.set_sound_timer(x)),
        Instruction::AddRegI => Ok(s.add_reg_i(x)),
        Instruction::SetISprite => Ok(s.set_i_sprite(x)),
        Instruction::SetBcd => s.set_bcd(x),
        Instruction::RegDump => s.reg_dump(x),
        Instruction::RegLoad => s.reg_load(x),
    }
}

/// A decoded instruction: the operation and its operand fields.
#[derive(Debug, Clone, Copy, PartialEq, Eq, Structural)]
pub struct Opcode {
    pub args: Args,
    pub op: Instruction,
}

impl Opcode {
    /// Splits a word into its operand fields. The operation is the class-0
    /// machine-code routine until the decoder selects another.
    pub fn new(opcode: u16) -> (r: Opcode)
        ensures
            r.args == args_of(opcode),
            r.args.wf(),
            r.op == Instruction::Call,
    {
        Opcode {
            args: Args {
                x: ((opcode / 256) % 16) as usize,
                y: ((opcode / 16) % 16) as usize,
                n: (opcode % 16) as u8,
                nn: (opcode % 256) as u8,
                nnn: opcode % 4096,
            },
            op: Instruction::Call,
        }
    }
    /// Carries out the instruction on the machine. On failure the machine is
    /// left as it was. Only the random instruction depends on the byte drawn.
    pub fn execute_opcode(&self, cpu: &mut Cpu) -> (r: Result<(), CpuError>)
        requires
            self.args.wf(),
        ensures
            exists|random: u8|
                step_result(
                    r,
                    old(cpu)@,
                    final(cpu)@,
                    #[trigger] execute(old(cpu)@, self.op, self.args, random),
                ),
            self.op != Instruction::BitwiseRand ==> step_result(
                r,
                old(cpu)@,
                final(cpu)@,
                execute(old(cpu)@, self.op, self.args, 0),
            ),
    {
        let a = &self.args;
        match self.op {
            Instruction::Call => call(cpu, a),
            Instruction::DispClear => {
                disp_clear(cpu, a);
                Ok(())
            },
            Instruction::RetSub => ret_sub(cpu, a),
            Instruction::Goto => {
                goto(cpu, a);
                Ok(())
            },
            Instruction::CallSub => call_sub(cpu, a),
            Instruction::SkipEq => {
                skip_eq(cpu, a);
                Ok(())
            },
            Instruction::SkipNotEq => {
                skip_not_eq(cpu, a);
                Ok(())
            },
            Instruction::SkipRegEq => {
                skip_reg_eq(cpu, a);
                Ok(())
            },
            Instruction::SetConst => {
                functions::set(cpu, a);
                Ok(())
            },
            Instruction::AddConst => {
                add_const(cpu, a);
                Ok(())
            },
            Instruction::SetReg => {
                set_reg(cpu, a);
                Ok(())
            },
            Instruction::BitwiseReg => {
                bitwise_reg(cpu, a);
                Ok(())
            },
            Instruction::AndReg => {
                and_reg(cpu, a);
                Ok(())
            },
            Instruction::XorReg => {
                xor_reg(cpu, a);
                Ok(())
            },
            Instruction::AddReg => {
                add_reg(cpu, a);
                Ok(())
            },
            Instruction::SubReg => {
                sub_reg(cpu, a);
                Ok(())
            },
            Instruction::RightShiftReg => {
                right_shift_reg(cpu, a);
                Ok(())
            },
            Instruction::SubRegStore => {
                sub_reg_store(cpu, a);
                Ok(())
            },
            Instruction::LeftShiftReg => {
                left_shift_reg(cpu, a);
                Ok(())
            },
            Instruction::NotEqReg => {
                not_eq_reg(cpu, a);
                Ok(())
            },
            Instruction::Mvi => {
                mvi(cpu, a);
                Ok(())
            },
            Instruction::JmpOffset => {
                jmp_offset(cpu, a);
                Ok(())
            },
            Instruction::BitwiseRand => {
                let random = bitwise_rand(cpu, a);
                assert(step_result(
                    Ok(()),
                    old(cpu)@,
                    cpu@,
                    execute(old(cpu)@, self.op, self.args, random),
                ));
                Ok(())
            },
            Instruction::Display => display(cpu, a),
            Instruction::SkipOnKey => skip_on_key(cpu, a),
            Instruction::SkipNotOnKey => skip_not_on_key(cpu, a),
            Instruction::GetDelay => {
                get_delay(cpu, a);
                Ok(())
            },
            Instruction::GetKeyBlock => {
                get_key_block(cpu, a);
                Ok(())
            },
            Instruction::SetDelayTimer => {
                set_delay_timer(cpu, a);
                Ok(())
            },
            Instruction::SetSoundTimer => {
                set_sound_timer(cpu, a);
                Ok(())
            },
            Instruction::AddRegI => {
                add_reg_i(cpu, a);
                Ok(())
            },
            Instruction::SetISprite => {
                set_i_sprite(cpu, a);
                Ok(())
            },
            Instruction::SetBcd => set_bcd(cpu, a),
            Instruction::RegDump => reg_dump(cpu, a),
            Instruction::RegLoad => reg_load(cpu, a),
        }
    }
}

/// Decodes an instruction word, failing on a word that encodes no instruction.
pub fn decode_opcode(opcode: u16) -> (r: Result<Opcode, CpuError>)
    ensures
        decode(opcode) matches Some(op) ==> r == Ok::<Opcode, CpuError>(
            Opcode { args: args_of(opcode), op },
        ),
        decode(opcode) is None ==> r == Err::<Opcode, CpuError>(CpuError::UnknownOpcode(opcode)),
{
    let mut d_op = Opcode::new(opcode);
    let n = opcode % 16;
    let nn = opcode % 256;
    let op = match opcode / 4096 {
        0 => match nn {
            0xE0 => Instruction::DispClear,
            0xEE => Instruction::RetSub,
            _ => return Err(CpuError::UnknownOpcode(opcode)),
        },
        1 => Instruction::Goto,
        2 => Instruction::CallSub,
        3 => Instruction::SkipEq,
        4 => Instruction::SkipNotEq,
        5 => Instruction::SkipRegEq,
        6 => Instruction::SetConst,
        7 => Instruction::AddConst,
        8 => match n {
            0x0 => Instruction::SetReg,
            0x1 => Instruction::BitwiseReg,
            0x2 => Instruction::AndReg,
            0x3 => Instruction::XorReg,
            0x4 => Instruction::AddReg,
            0x5 => Instruction::SubReg,
            0x6 => Instruction::RightShiftReg,
            0x7 => Instruction::SubRegStore,
            0xE => Instruction::LeftShiftReg,
            _ => return Err(CpuError::UnknownOpcode(opcode)),
        },
        9 => Instruction::NotEqReg,
        10 => Instruction::Mvi,
        11 => Instruction::JmpOffset,
        12 => Instruction::BitwiseRand,
        13 => Instruction::Display,
        14 => match nn {
            0x9E => Instruction::SkipOnKey,
            0xA1 => Instruction::SkipNotOnKey,
            _ => return Err(CpuError::UnknownOpcode(opcode)),
        },
        _ => match nn {
            0x07 => Instruction::GetDelay,
            0x0A => Instruction::GetKeyBlock,
            0x15 => Instruction::SetDelayTimer,
            0x18 => Instruction::SetSoundTimer,
            0x1E => Instruction::AddRegI,
            0x29 => Instruction::SetISprite,
            0x33 => Instruction::SetBcd,
            0x55 => Instruction::RegDump,
            0x65 => Instruction::RegLoad,
            _ => return Err(CpuError::UnknownOpcode(opcode)),
        },
    };
    d_op.op = op;
    Ok(d_op)
}

} // verus!
