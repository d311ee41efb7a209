//! The mathematical model of the machine and the meaning of each instruction.
use vstd::prelude::*;

verus! {

/// Bytes of addressable memory.
pub const MEMORY_SIZE: usize = 4096;

/// Address at which the program image is loaded and execution starts.
pub const PROGRAM_START: usize = 512;

/// Bytes of the font glyph table at the start of memory (16 glyphs of 5 rows).
pub const FONT_SIZE: usize = 80;

/// Rows of one font glyph.
pub const GLYPH_HEIGHT: u16 = 5;

/// Number of general registers V0..VF.
pub const REGISTER_COUNT: usize = 16;

/// Index of the flag register VF.
pub const FLAG: usize = 15;

/// Maximum depth of the call stack.
pub const STACK_DEPTH: usize = 16;

/// Number of keys on the input pad.
pub const KEY_COUNT: usize = 16;

/// Width of the framebuffer in pixels.
pub const SCREEN_WIDTH: usize = 64;

/// Height of the framebuffer in pixels.
pub const SCREEN_HEIGHT: usize = 32;

/// Pixels of the framebuffer, stored row by row.
pub const SCREEN_SIZE: usize = 2048;

/// Why a cycle (or the construction of a machine) could not be carried out.
#[derive(Debug, Clone, Copy, PartialEq, Eq, Structural)]
pub enum CpuError {
    /// The instruction word matches no instruction of the set.
    UnknownOpcode(u16),
    /// A subroutine call with the call stack already full.
    StackOverflow,
    /// A return with an empty call stack.
    StackUnderflow,
    /// A memory access outside the address space.
    AddressOutOfRange,
    /// A key instruction naming a key that the pad does not have.
    InvalidKey(u8),
    /// The program image does not fit in memory above the program start.
    ProgramTooLarge,
}

/// The whole state of the machine, as mathematical values.
/// `stack` holds the live return addresses, the most recent last.
#[verifier::ext_equal]
pub struct CpuState {
    pub memory: Seq<u8>,
    pub v: Seq<u8>,
    pub i: u16,
    pub pc: u16,
    pub delay_timer: u8,
    pub sound_timer: u8,
    pub stack: Seq<u16>,
    pub keys: Seq<bool>,
    pub gfx: Seq<bool>,
    pub draw_flag: bool,
}

/// A 16-bit register value after adding `n`, wrapping around.
pub open spec fn wrap16(n: int) -> u16 {
    (n % 0x10000) as u16
}

/// Whether column `col` (0 = leftmost) of a sprite row is set.
pub open spec fn sprite_bit(byte: u8, col: int) -> bool {
    (byte >> ((7 - col) as u8)) & 1u8 == 1u8
}

/// Whether a set sprite bit lands on framebuffer pixel `p` when the sprite's
/// top-left corner is at column `x0`, row `y0`. Pixels past the right or
/// bottom edge are dropped: nothing wraps.
pub open spec fn covers(sprite: Seq<u8>, x0: int, y0: int, p: int) -> bool {
    let row = p / SCREEN_WIDTH as int;
    let col = p % SCREEN_WIDTH as int;
    &&& y0 <= row < y0 + sprite.len()
    &&& x0 <= col < x0 + 8
    &&& sprite_bit(sprite[row - y0], col - x0)
}

/// The framebuffer after XOR-ing the sprite onto it.
pub open spec fn draw_sprite(gfx: Seq<bool>, sprite: Seq<u8>, x0: int, y0: int) -> Seq<bool> {
    Seq::new(gfx.len(), |p: int| gfx[p] != covers(sprite, x0, y0, p))
}

/// Whether drawing the sprite turns some set pixel off.
pub open spec fn collides(gfx: Seq<bool>, sprite: Seq<u8>, x0: int, y0: int) -> bool {
    exists|p: int| 0 <= p < gfx.len() && gfx[p] && #[trigger] covers(sprite, x0, y0, p)
}

/// The lowest index at or after `from` of a pressed key, if any.
pub open spec fn pressed_key(keys: Seq<bool>, from: int) -> Option<int>
    decreases keys.len() - from,
{
    if from < 0 || from >= keys.len() {
        None
    } else if keys[from] {
        Some(from)
    } else {
        pressed_key(keys, from + 1)
    }
}

/// The flag value for a condition.
pub open spec fn flag(c: bool) -> u8 {
    if c {
        1
    } else {
        0
    }
}

impl CpuState {
    /// Lengths that every state of a machine has.
    pub open spec fn wf(self) -> bool {
        &&& self.memory.len() == MEMORY_SIZE
        &&& self.v.len() == REGISTER_COUNT
        &&& self.keys.len() == KEY_COUNT
        &&& self.gfx.len() == SCREEN_SIZE
    }

    pub open spec fn with_v(self, x: int, val: u8) -> CpuState {
        CpuState { v: self.v.update(x, val), ..self }
    }

    pub open spec fn with_pc(self, pc: u16) -> CpuState {
        CpuState { pc, ..self }
    }

    /// The program counter moved on by `k` bytes.
    pub open spec fn advance(self, k: int) -> CpuState {
        self.with_pc(wrap16(self.pc + k))
    }

    /// Moves on to the next instruction, or past it when `c` holds.
    pub open spec fn skip_if(self, c: bool) -> CpuState {
        self.advance(if c { 4 } else { 2 })
    }

    pub open spec fn disp_clear(self) -> CpuState {
        CpuState { gfx: Seq::new(self.gfx.len(), |p: int| false), draw_flag: true, ..self }.advance(2)
    }

    pub open spec fn ret_sub(self) -> Result<CpuState, CpuError> {
        if self.stack.len() == 0 {
            Err(CpuError::StackUnderflow)
        } else {
            Ok(CpuState { stack: self.stack.drop_last(), ..self }.with_pc(wrap16(self.stack.last() + 2)))
        }
    }

    pub open spec fn goto(self, nnn: u16) -> CpuState {
        self.with_pc(nnn)
    }

    pub open spec fn call_sub(self, nnn: u16) -> Result<CpuState, CpuError> {
        if self.stack.len() >= STACK_DEPTH {
            Err(CpuError::StackOverflow)
        } else {
            Ok(CpuState { stack: self.stack.push(self.pc), ..self }.with_pc(nnn))
        }
    }

    pub open spec fn skip_eq(self, x: int, nn: u8) -> CpuState {
        self.skip_if(self.v[x] == nn)
    }

    pub open spec fn skip_not_eq(self, x: int, nn: u8) -> CpuState {
        self.skip_if(self.v[x] != nn)
    }

    pub open spec fn skip_reg_eq(self, x: int, y: int) -> CpuState {
        self.skip_if(self.v[x] == self.v[y])
    }

    pub open spec fn set(self, x: int, nn: u8) -> CpuState {
        self.with_v(x, nn).advance(2)
    }

    pub open spec fn add_const(self, x: int, nn: u8) -> CpuState {
        self.with_v(x, ((self.v[x] + nn) % 256) as u8).advance(2)
    }

    pub open spec fn set_reg(self, x: int, y: int) -> CpuState {
        self.with_v(x, self.v[y]).advance(2)
    }

    pub open spec fn bitwise_reg(self, x: int, y: int) -> CpuState {
        self.with_v(x, self.v[x] | self.v[y]).advance(2)
    }

    pub open spec fn and_reg(self, x: int, y: int) -> CpuState {
        self.with_v(x, self.v[x] & self.v[y]).advance(2)
    }

    pub open spec fn xor_reg(self, x: int, y: int) -> CpuState {
        self.with_v(x, self.v[x] ^ self.v[y]).advance(2)
    }

    /// VF is written first, so with x = F the sum is what remains in VF.
    pub open spec fn add_reg(self, x: int, y: int) -> CpuState {
        let sum = self.v[x] + self.v[y];
        self.with_v(FLAG as int, flag(sum > 255)).with_v(x, (sum % 256) as u8).advance(2)
    }

    pub open spec fn sub_reg(self, x: int, y: int) -> CpuState {
        let (a, b) = (self.v[x], self.v[y]);
        self.with_v(FLAG as int, flag(a >= b)).with_v(x, ((a - b) % 256) as u8).advance(2)
    }

    pub open spec fn right_shift_reg(self, x: int) -> CpuState {
        let a = self.v[x];
        self.with_v(FLAG as int, a % 2).with_v(x, a / 2).advance(2)
    }

    pub open spec fn sub_reg_store(self, x: int, y: int) -> CpuState {
        let (a, b) = (self.v[x], self.v[y]);
        self.with_v(FLAG as int, flag(b >= a)).with_v(x, ((b - a) % 256) as u8).advance(2)
    }

    pub open spec fn left_shift_reg(self, x: int) -> CpuState {
        let a = self.v[x];
        self.with_v(FLAG as int, a / 128).with_v(x, ((a * 2) % 256) as u8).advance(2)
    }

    pub open spec fn not_eq_reg(self, x: int, y: int) -> CpuState {
        self.skip_if(self.v[x] != self.v[y])
    }

    pub open spec fn mvi(self, nnn: u16) -> CpuState {
        CpuState { i: nnn, ..self }.advance(2)
    }

    pub open spec fn jmp_offset(self, nnn: u16) -> CpuState {
        self.with_pc(wrap16(self.v[0] + nnn))
    }

    /// Vx := `random` AND nn, for the byte `random` that was drawn.
    pub open spec fn bitwise_rand(self, x: int, nn: u8, random: u8) -> CpuState {
        self.with_v(x, random & nn).advance(2)
    }

    /// The `n` sprite rows that a draw reads, starting at I.
    pub open spec fn sprite(self, n: int) -> Seq<u8> {
        self.memory.subrange(self.i as int, self.i + n)
    }

    pub open spec fn display(self, x: int, y: int, n: int) -> Result<CpuState, CpuError> {
        if self.i + n > MEMORY_SIZE {
            Err(CpuError::AddressOutOfRange)
        } else {
            let x0 = self.v[x] as int % SCREEN_WIDTH as int;
            let y0 = self.v[y] as int % SCREEN_HEIGHT as int;
            let sprite = self.sprite(n);
            Ok(
                CpuState {
                    gfx: draw_sprite(self.gfx, sprite, x0, y0),
                    draw_flag: true,
                    ..self
                }.with_v(FLAG as int, flag(collides(self.gfx, sprite, x0, y0))).advance(2),
            )
        }
    }

    pub open spec fn skip_on_key(self, x: int) -> Result<CpuState, CpuError> {
        if self.v[x] >= KEY_COUNT {
            Err(CpuError::InvalidKey(self.v[x]))
        } else {
            Ok(self.skip_if(self.keys[self.v[x] as int]))
        }
    }

    pub open spec fn skip_not_on_key(self, x: int) -> Result<CpuState, CpuError> {
        if self.v[x] >= KEY_COUNT {
            Err(CpuError::InvalidKey(self.v[x]))
        } else {
            Ok(self.skip_if(!self.keys[self.v[x] as int]))
        }
    }

    pub open spec fn get_delay(self, x: int) -> CpuState {
        self.with_v(x, self.delay_timer).advance(2)
    }

    /// With no key pressed the state stays as it is, so the same
    /// instruction runs again on the next cycle.
    pub open spec fn get_key_block(self, x: int) -> CpuState {
        match pressed_key(self.keys, 0) {
            Some(k) => self.with_v(x, k as u8).advance(2),
            None => self,
        }
    }

    pub open spec fn set_delay_timer(self, x: int) -> CpuState {
        CpuState { delay_timer: self.v[x], ..self }.advance(2)
    }

    pub open spec fn set_sound_timer(self, x: int) -> CpuState {
        CpuState { sound_timer: self.v[x], ..self }.advance(2)
    }

    pub open spec fn add_reg_i(self, x: int) -> CpuState {
        CpuState { i: wrap16(self.i + self.v[x]), ..self }.advance(2)
    }

    pub open spec fn set_i_sprite(self, x: int) -> CpuState {
        CpuState { i: (self.v[x] * GLYPH_HEIGHT) as u16, ..self }.advance(2)
    }

    pub open spec fn set_bcd(self, x: int) -> Result<CpuState, CpuError> {
        let a = self.v[x];
        let i = self.i as int;
        if i + 3 > MEMORY_SIZE {
            Err(CpuError::AddressOutOfRange)
        } else {
            Ok(
                CpuState {
                    memory: self.memory.update(i, a / 100).update(i + 1, (a / 10) % 10).update(
                        i + 2,
                        a % 10,
                    ),
                    ..self
                }.advance(2),
            )
        }
    }

    pub open spec fn reg_dump(self, x: int) -> Result<CpuState, CpuError> {
        let i = self.i as int;
        if i + x + 1 > MEMORY_SIZE {
            Err(CpuError::AddressOutOfRange)
        } else {
            Ok(
                CpuState {
                    memory: Seq::new(
                        self.memory.len(),
                        |a: int|
                            if i <= a <= i + x {
                                self.v[a - i]
                            } else {
                                self.memory[a]
                            },
                    ),
                    ..self
                }.advance(2),
            )
        }
    }

    pub open spec fn reg_load(self, x: int) -> Result<CpuState, CpuError> {
        let i = self.i as int;
        if i + x + 1 > MEMORY_SIZE {
            Err(CpuError::AddressOutOfRange)
        } else {
            Ok(
                CpuState {
                    v: Seq::new(
                        self.v.len(),
                        |r: int|
                            if r <= x {
                                self.memory[i + r]
                            } else {
                                self.v[r]
                            },
                    ),
                    ..self
                }.advance(2),
            )
        }
    }

    /// One timer tick: both timers count down towards zero; the flag tells
    /// whether the sound timer was exactly 1 before, the audible boundary.
    pub open spec fn tick(self) -> (CpuState, bool) {
        (
            CpuState {
                delay_timer: if self.delay_timer > 0 { (self.delay_timer - 1) as u8 } else { 0 },
                sound_timer: if self.sound_timer > 0 { (self.sound_timer - 1) as u8 } else { 0 },
                ..self
            },
            self.sound_timer == 1,
        )
    }
}

/// Relates what a state-changing operation returned, and the state after it,
/// to the outcome that the model gives: on success the new state, on failure
/// the error with the state left as it was.
pub open spec fn step_result(
    r: Result<(), CpuError>,
    before: CpuState,
    after: CpuState,
    expected: Result<CpuState, CpuError>,
) -> bool {
    match expected {
        Ok(s) => r is Ok && after == s,
        Err(e) => r == Err::<(), CpuError>(e) && after == before,
    }
}

} // verus!
