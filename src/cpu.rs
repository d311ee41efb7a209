//! The machine: memory, registers, stack, timers, keypad and framebuffer.
use vstd::prelude::*;

pub mod opcode;
pub mod laws;
pub mod state;
pub mod timers;

use opcode::{args_of, decode, decode_opcode, execute, Instruction};
use state::{
    step_result, CpuError, CpuState, FONT_SIZE, KEY_COUNT, MEMORY_SIZE, PROGRAM_START,
    REGISTER_COUNT, SCREEN_SIZE,
};
use timers::update_timers;

verus! {

/// The machine state. Memory map: the font glyphs sit at the start of memory,
/// the program is loaded at `PROGRAM_START` and runs from there.
///
/// The keypad, the framebuffer and the redraw flag are the fields that the
/// input and display adapters read and write directly.
pub struct Cpu {
    memory: [u8; MEMORY_SIZE],
    v: [u8; REGISTER_COUNT],
    i: u16,
    pc: u16,
    delay_timer: u8,
    sound_timer: u8,
    stack: Vec<u16>,
    /// Keypad snapshot: `key[k]` holds while key `k` is pressed.
    pub key: [bool; KEY_COUNT],
    /// Set whenever the framebuffer changed; the renderer clears it.
    pub draw_flag: bool,
    /// 64 x 32 pixels, row by row; `true` is a lit pixel.
    pub gfx: [bool; SCREEN_SIZE],
}

impl View for Cpu {
    type V = CpuState;

    closed spec fn view(&self) -> CpuState {
        CpuState {
            memory: self.memory@,
            v: self.v@,
            i: self.i,
            pc: self.pc,
            delay_timer: self.delay_timer,
            sound_timer: self.sound_timer,
            stack: self.stack@,
            keys: self.key@,
            gfx: self.gfx@,
            draw_flag: self.draw_flag,
        }
    }
}

/// The state that a machine starts in: the first `FONT_SIZE` bytes of the
/// font at the start of memory, the program from `PROGRAM_START` on, every
/// other byte, register, timer and pixel zero, the stack empty, no key
/// pressed, and the program counter at `PROGRAM_START`.
pub open spec fn initial_state(fontset: Seq<u8>, program: Seq<u8>) -> CpuState {
    CpuState {
        memory: Seq::new(
            MEMORY_SIZE as nat,
            |a: int|
                if a < FONT_SIZE {
                    fontset[a]
                } else if PROGRAM_START <= a < PROGRAM_START + program.len() {
                    program[a - PROGRAM_START]
                } else {
                    0u8
                },
        ),
        v: Seq::new(REGISTER_COUNT as nat, |r: int| 0u8),
        i: 0,
        pc: PROGRAM_START as u16,
        delay_timer: 0,
        sound_timer: 0,
        stack: Seq::empty(),
        keys: Seq::new(KEY_COUNT as nat, |k: int| false),
        gfx: Seq::new(SCREEN_SIZE as nat, |p: int| false),
        draw_flag: false,
    }
}

/// The instruction word at the program counter: two bytes, high byte
/// first. None when the second byte would lie outside memory.
pub open spec fn fetch(s: CpuState) -> Option<u16> {
    if s.pc + 1 < MEMORY_SIZE {
        Some((s.memory[s.pc as int] * 256 + s.memory[s.pc + 1]) as u16)
    } else {
        None
    }
}

/// Whether the instruction at the program counter is the random one.
pub open spec fn draws_random(s: CpuState) -> bool {
    fetch(s) matches Some(w) && decode(w) == Some(Instruction::BitwiseRand)
}

/// Fetch, decode and execute, with `random` the byte a random instruction draws.
pub open spec fn run_instruction(s: CpuState, random: u8) -> Result<CpuState, CpuError> {
    match fetch(s) {
        None => Err(CpuError::AddressOutOfRange),
        Some(w) => match decode(w) {
            None => Err(CpuError::UnknownOpcode(w)),
            Some(op) => execute(s, op, args_of(w), random),
        },
    }
}

/// One whole cycle: an instruction, then a timer tick. The flag tells whether
/// the tick reached the audible boundary.
pub open spec fn run_cycle(s: CpuState, random: u8) -> Result<(CpuState, bool), CpuError> {
    match run_instruction(s, random) {
        Ok(t) => Ok(t.tick()),
        Err(e) => Err(e),
    }
}

/// Relates what a cycle returned, and the state after it, to the model.
pub open spec fn cycle_result(
    r: Result<bool, CpuError>,
    before: CpuState,
    after: CpuState,
    expected: Result<(CpuState, bool), CpuError>,
) -> bool {
    match expected {
        Ok((s, beep)) => r == Ok::<bool, CpuError>(beep) && after == s,
        Err(e) => r == Err::<bool, CpuError>(e) && after == before,
    }
}

impl Cpu {
    /// The state of a machine has the lengths that the model's laws assume.
    pub proof fn lemma_view_wf(&self)
        ensures
            self@.wf(),
    {
    }

    /// Builds a machine from the font glyph table and the program image.
    /// Fails when the program does not fit in memory above `PROGRAM_START`.
    pub fn initialize(fontset: &Vec<u8>, program: &Vec<u8>) -> (r: Result<Self, CpuError>)
        requires
            fontset@.len() >= FONT_SIZE,
        ensures
            program@.len() > MEMORY_SIZE - PROGRAM_START ==> r == Err::<Self, CpuError>(
                CpuError::ProgramTooLarge,
            ),
            program@.len() <= MEMORY_SIZE - PROGRAM_START ==> (r matches Ok(cpu) && cpu@
                == initial_state(fontset@, program@)),
    {
        if program.len() > MEMORY_SIZE - PROGRAM_START {
            return Err(CpuError::ProgramTooLarge);
        }
        let ghost init = initial_state(fontset@, program@);
        let mut memory = [0u8; MEMORY_SIZE];
        for a in 0..FONT_SIZE
            invariant
                init == initial_state(fontset@, program@),
                fontset@.len() >= FONT_SIZE,
                program@.len() <= MEMORY_SIZE - PROGRAM_START,
                forall|b: int| 0 <= b < a ==> memory@[b] == init.memory[b],
                forall|b: int| a <= b < MEMORY_SIZE ==> memory@[b] == 0,
        {
            memory[a] = fontset[a];
        }
        for k in 0..program.len()
            invariant
                init == initial_state(fontset@, program@),
                fontset@.len() >= FONT_SIZE,
                program@.len() <= MEMORY_SIZE - PROGRAM_START,
                forall|b: int| 0 <= b < PROGRAM_START + k ==> memory@[b] == init.memory[b],
                forall|b: int| PROGRAM_START + k <= b < MEMORY_SIZE ==> memory@[b] == 0,
        {
            memory[PROGRAM_START + k] = program[k];
        }
        let cpu = Cpu {
            memory,
            v: [0u8; REGISTER_COUNT],
            i: 0,
            pc: PROGRAM_START as u16,
            delay_timer: 0,
            sound_timer: 0,
            stack: Vec::new(),
            key: [false; KEY_COUNT],
            draw_flag: false,
            gfx: [false; SCREEN_SIZE],
        };
        assert(cpu.memory@ =~= init.memory);
        assert(cpu.v@ =~= init.v);
        assert(cpu.key@ =~= init.keys);
        assert(cpu.gfx@ =~= init.gfx);
        assert(cpu.stack@ =~= init.stack);
        assert(cpu@ =~= init);
        Ok(cpu)
    }

    /// Fetches, decodes and executes one instruction, without touching the
    /// timers, so that a caller can tick them at a rate of its own. On
    /// failure the machine is left as it was.
    pub fn step(&mut self) -> (r: Result<(), CpuError>)
        ensures
            exists|random: u8|
                step_result(r, old(self)@, final(self)@, #[trigger] run_instruction(old(self)@, random)),
            !draws_random(old(self)@) ==> step_result(
                r,
                old(self)@,
                final(self)@,
                run_instruction(old(self)@, 0),
            ),
    {
        let pc = self.pc as usize;
        if pc + 1 >= MEMORY_SIZE {
            proof {
                assert(run_instruction(old(self)@, 0) == Err::<CpuState, CpuError>(
                    CpuError::AddressOutOfRange,
                ));
            }
            return Err(CpuError::AddressOutOfRange);
        }
        let word = self.memory[pc] as u16 * 256 + self.memory[pc + 1] as u16;
        assert(fetch(self@) == Some(word));
        match decode_opcode(word) {
            Err(e) => {
                assert(run_instruction(old(self)@, 0) == Err::<CpuState, CpuError>(e));
                Err(e)
            },
            Ok(d_op) => {
                let r = d_op.execute_opcode(self);
                proof {
                    let random = choose|random: u8|
                        step_result(
                            r,
                            old(self)@,
                            self@,
                            #[trigger] execute(old(self)@, d_op.op, d_op.args, random),
                        );
                    assert(run_instruction(old(self)@, random) == execute(
                        old(self)@,
                        d_op.op,
                        d_op.args,
                        random,
                    ));
                    assert(run_instruction(old(self)@, 0) == execute(
                        old(self)@,
                        d_op.op,
                        d_op.args,
                        0,
                    ));
                }
                r
            },
        }
    }

    /// One cycle: fetch, decode and execute one instruction, then tick the
    /// timers. Returns whether the sound timer reached its audible boundary.
    /// On failure the machine is left as it was, timers included.
    pub fn emulate_cycle(&mut self) -> (r: Result<bool, CpuError>)
        ensures
            exists|random: u8|
                cycle_result(r, old(self)@, final(self)@, #[trigger] run_cycle(old(self)@, random)),
            !draws_random(old(self)@) ==> cycle_result(
                r,
                old(self)@,
                final(self)@,
                run_cycle(old(self)@, 0),
            ),
    {
        let r = self.step();
        let ghost mid = self@;
        match r {
            Err(e) => {
                proof {
                    let random = choose|random: u8|
                        step_result(r, old(self)@, mid, #[trigger] run_instruction(old(self)@, random));
                    assert(cycle_result(Err(e), old(self)@, self@, run_cycle(old(self)@, random)));
                }
                Err(e)
            },
            Ok(()) => {
                let beep = update_timers(self);
                proof {
                    let random = choose|random: u8|
                        step_result(r, old(self)@, mid, #[trigger] run_instruction(old(self)@, random));
                    assert(cycle_result(Ok(beep), old(self)@, self@, run_cycle(old(self)@, random)));
                }
                Ok(beep)
            },
        }
    }

    /// The value of register `x`.
    pub fn register(&self, x: usize) -> (r: u8)
        requires
            x < REGISTER_COUNT,
        ensures
            r == self@.v[x as int],
    {
        self.v[x]
    }

    /// The index register I.
    pub fn index(&self) -> (r: u16)
        ensures
            r == self@.i,
    {
        self.i
    }

    /// The program counter.
    pub fn program_counter(&self) -> (r: u16)
        ensures
            r == self@.pc,
    {
        self.pc
    }

    /// The memory byte at `address`.
    pub fn memory_at(&self, address: usize) -> (r: u8)
        requires
            address < MEMORY_SIZE,
        ensures
            r == self@.memory[address as int],
    {
        self.memory[address]
    }

    /// The delay timer.
    pub fn delay_timer(&self) -> (r: u8)
        ensures
            r == self@.delay_timer,
    {
        self.delay_timer
    }

    /// The sound timer.
    pub fn sound_timer(&self) -> (r: u8)
        ensures
            r == self@.sound_timer,
    {
        self.sound_timer
    }

    /// The number of return addresses on the call stack.
    pub fn stack_depth(&self) -> (r: usize)
        ensures
            r == self@.stack.len(),
    {
        self.stack.len()
    }
}

} // verus!
