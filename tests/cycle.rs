use chip8::cpu::opcode::functions::{bitwise_rand, set_sound_timer};
use chip8::cpu::opcode::Opcode;
use chip8::cpu::state::CpuError;
use chip8::cpu::timers::update_timers;
use chip8::cpu::Cpu;

fn font() -> Vec<u8> {
    (0..80u8).collect()
}

fn machine(program: &[u8]) -> Cpu {
    Cpu::initialize(&font(), &program.to_vec()).unwrap()
}

#[test]
fn add_program_three_cycles() {
    let mut cpu = machine(&[0x60, 0x05, 0x61, 0x03, 0x80, 0x14]);
    for _ in 0..3 {
        assert_eq!(cpu.emulate_cycle(), Ok(false));
    }
    assert_eq!(cpu.register(0), 8);
    assert_eq!(cpu.register(0xF), 0);
    assert_eq!(cpu.program_counter(), 0x200 + 6);
}

#[test]
fn register_dump_keeps_index() {
    // V0..V2 := 1, 2, 3; I := 0x300; dump V0..V2.
    let mut cpu = machine(&[0x60, 0x01, 0x61, 0x02, 0x62, 0x03, 0xA3, 0x00, 0xF2, 0x55]);
    for _ in 0..5 {
        cpu.emulate_cycle().unwrap();
    }
    assert_eq!(cpu.memory_at(0x300), 1);
    assert_eq!(cpu.memory_at(0x301), 2);
    assert_eq!(cpu.memory_at(0x302), 3);
    assert_eq!(cpu.memory_at(0x303), 0);
    assert_eq!(cpu.index(), 0x300);
}

#[test]
fn sound_timer_boundary_event() {
    let mut cpu = machine(&[0x60, 0x01]);
    cpu.step().unwrap();
    set_sound_timer(&mut cpu, &Opcode::new(0xF018).args);
    assert_eq!(cpu.sound_timer(), 1);
    assert!(update_timers(&mut cpu));
    assert_eq!(cpu.sound_timer(), 0);
    assert!(!update_timers(&mut cpu));
    assert_eq!(cpu.sound_timer(), 0);
}

#[test]
fn cycle_reports_sound_boundary() {
    // V0 := 1; sound timer := V0; the same cycle's tick reaches the boundary.
    let mut cpu = machine(&[0x60, 0x01, 0xF0, 0x18, 0x60, 0x00]);
    assert_eq!(cpu.emulate_cycle(), Ok(false));
    assert_eq!(cpu.emulate_cycle(), Ok(true));
    assert_eq!(cpu.sound_timer(), 0);
    assert_eq!(cpu.emulate_cycle(), Ok(false));
}

#[test]
fn delay_timer_counts_down_per_cycle() {
    // V0 := 3; delay := V0; then read it back into V1 twice.
    let mut cpu = machine(&[0x60, 0x03, 0xF0, 0x15, 0xF1, 0x07, 0xF1, 0x07]);
    cpu.emulate_cycle().unwrap();
    cpu.emulate_cycle().unwrap();
    assert_eq!(cpu.delay_timer(), 2);
    cpu.emulate_cycle().unwrap();
    assert_eq!(cpu.register(1), 2);
    assert_eq!(cpu.delay_timer(), 1);
    cpu.emulate_cycle().unwrap();
    assert_eq!(cpu.register(1), 1);
    assert_eq!(cpu.delay_timer(), 0);
    assert_eq!(cpu.program_counter(), 0x208);
}

#[test]
fn initialize_loads_font_and_program() {
    let cpu = machine(&[0xAB, 0xCD]);
    assert_eq!(cpu.memory_at(0), 0);
    assert_eq!(cpu.memory_at(79), 79);
    assert_eq!(cpu.memory_at(80), 0);
    assert_eq!(cpu.memory_at(0x200), 0xAB);
    assert_eq!(cpu.memory_at(0x201), 0xCD);
    assert_eq!(cpu.memory_at(0x202), 0);
    assert_eq!(cpu.program_counter(), 0x200);
    assert_eq!(cpu.index(), 0);
    assert_eq!(cpu.stack_depth(), 0);
    assert!(!cpu.draw_flag);
    assert!(cpu.gfx.iter().all(|p| !p));
}

#[test]
fn initialize_accepts_largest_program() {
    let program = vec![0x12u8; 4096 - 512];
    let cpu = Cpu::initialize(&font(), &program).unwrap();
    assert_eq!(cpu.memory_at(4095), 0x12);
}

#[test]
fn initialize_rejects_oversized_program() {
    let program = vec![0u8; 4096 - 512 + 1];
    assert!(matches!(Cpu::initialize(&font(), &program), Err(CpuError::ProgramTooLarge)));
}

#[test]
fn unknown_opcode_is_an_error() {
    let mut cpu = machine(&[0x01, 0x23]);
    assert_eq!(cpu.emulate_cycle(), Err(CpuError::UnknownOpcode(0x0123)));
    assert_eq!(cpu.program_counter(), 0x200);
    let mut cpu = machine(&[0xFF, 0xFF]);
    assert_eq!(cpu.step(), Err(CpuError::UnknownOpcode(0xFFFF)));
}

#[test]
fn return_with_empty_stack_underflows() {
    let mut cpu = machine(&[0x00, 0xEE]);
    assert_eq!(cpu.emulate_cycle(), Err(CpuError::StackUnderflow));
    assert_eq!(cpu.program_counter(), 0x200);
}

#[test]
fn seventeenth_nested_call_overflows() {
    // 0x200: call 0x200, forever.
    let mut cpu = machine(&[0x22, 0x00]);
    for depth in 1..=16 {
        assert_eq!(cpu.emulate_cycle(), Ok(false));
        assert_eq!(cpu.stack_depth(), depth);
    }
    assert_eq!(cpu.emulate_cycle(), Err(CpuError::StackOverflow));
    assert_eq!(cpu.stack_depth(), 16);
}

#[test]
fn call_then_return_resumes_after_call() {
    // 0x200: call 0x206; 0x202: V0 := 7; 0x206: return.
    let mut cpu = machine(&[0x22, 0x06, 0x60, 0x07, 0x00, 0x00, 0x00, 0xEE]);
    cpu.emulate_cycle().unwrap();
    assert_eq!(cpu.program_counter(), 0x206);
    assert_eq!(cpu.stack_depth(), 1);
    cpu.emulate_cycle().unwrap();
    assert_eq!(cpu.program_counter(), 0x202);
    assert_eq!(cpu.stack_depth(), 0);
    cpu.emulate_cycle().unwrap();
    assert_eq!(cpu.register(0), 7);
}

#[test]
fn fetch_past_end_of_memory_fails() {
    // Jump to 0xFFF: its second byte would be at 0x1000.
    let mut cpu = machine(&[0x1F, 0xFF]);
    cpu.emulate_cycle().unwrap();
    assert_eq!(cpu.program_counter(), 0xFFF);
    assert_eq!(cpu.emulate_cycle(), Err(CpuError::AddressOutOfRange));
}

#[test]
fn bcd_past_end_of_memory_fails() {
    // I := 0xFFE; BCD of V0 needs 0xFFE..0x1000.
    let mut cpu = machine(&[0xAF, 0xFE, 0xF0, 0x33]);
    cpu.emulate_cycle().unwrap();
    assert_eq!(cpu.emulate_cycle(), Err(CpuError::AddressOutOfRange));
    assert_eq!(cpu.program_counter(), 0x202);
}

#[test]
fn invalid_key_is_an_error() {
    let mut cpu = machine(&[0x60, 0x20, 0xE0, 0x9E]);
    cpu.emulate_cycle().unwrap();
    assert_eq!(cpu.emulate_cycle(), Err(CpuError::InvalidKey(0x20)));
}

#[test]
fn wait_for_key_stalls_until_pressed() {
    let mut cpu = machine(&[0xF3, 0x0A]);
    cpu.emulate_cycle().unwrap();
    assert_eq!(cpu.program_counter(), 0x200);
    cpu.emulate_cycle().unwrap();
    assert_eq!(cpu.program_counter(), 0x200);
    cpu.key[0xB] = true;
    cpu.key[0x5] = true;
    cpu.emulate_cycle().unwrap();
    assert_eq!(cpu.register(3), 5);
    assert_eq!(cpu.program_counter(), 0x202);
}

#[test]
fn skip_on_key_follows_keypad() {
    // V1 := 4; skip if key V1; V2 := 1; V3 := 1.
    let program = [0x61, 0x04, 0xE1, 0x9E, 0x62, 0x01, 0x63, 0x01];
    let mut cpu = machine(&program);
    cpu.key[4] = true;
    cpu.emulate_cycle().unwrap();
    cpu.emulate_cycle().unwrap();
    assert_eq!(cpu.program_counter(), 0x206);
    let mut cpu = machine(&program);
    cpu.emulate_cycle().unwrap();
    cpu.emulate_cycle().unwrap();
    assert_eq!(cpu.program_counter(), 0x204);
}

#[test]
fn random_instruction_masks_the_drawn_byte() {
    let mut cpu = machine(&[]);
    for _ in 0..50 {
        let random = bitwise_rand(&mut cpu, &Opcode::new(0xC40F).args);
        assert_eq!(cpu.register(4), random & 0x0F);
        assert!(cpu.register(4) < 0x10);
    }
    assert_eq!(cpu.program_counter(), 0x200 + 100);
}

#[test]
fn random_instruction_through_cycle_respects_mask() {
    let mut cpu = machine(&[0xC5, 0x30]);
    cpu.emulate_cycle().unwrap();
    assert_eq!(cpu.register(5) & !0x30, 0);
    assert_eq!(cpu.program_counter(), 0x202);
}

#[test]
fn clear_display_in_cycle_sets_redraw() {
    // Draw glyph 0 at (0, 0), then clear.
    let mut cpu = Cpu::initialize(&vec![0xF0u8; 80], &vec![0xD0, 0x15, 0x00, 0xE0]).unwrap();
    cpu.emulate_cycle().unwrap();
    assert!(cpu.gfx[0] && cpu.gfx[3] && !cpu.gfx[4]);
    cpu.draw_flag = false;
    cpu.emulate_cycle().unwrap();
    assert!(cpu.draw_flag);
    assert!(cpu.gfx.iter().all(|p| !p));
}
