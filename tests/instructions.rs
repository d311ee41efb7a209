use chip8::cpu::opcode::functions::{
    add_const, add_reg, add_reg_i, and_reg, bitwise_rand_value, bitwise_reg, call, disp_clear,
    display, get_key_block, goto, jmp_offset, left_shift_reg, mvi, not_eq_reg, reg_dump, reg_load,
    right_shift_reg, set_bcd, set_i_sprite, set_reg, skip_eq, skip_not_eq, skip_not_on_key,
    skip_reg_eq, sub_reg, sub_reg_store, xor_reg,
};
use chip8::cpu::opcode::{decode_opcode, Args, Instruction, Opcode};
use chip8::cpu::state::CpuError;
use chip8::cpu::Cpu;

fn machine() -> Cpu {
    Cpu::initialize(&vec![0u8; 80], &vec![]).unwrap()
}

fn args(word: u16) -> Args {
    Opcode::new(word).args
}

/// Vx := value, through the load-immediate instruction.
fn load(cpu: &mut Cpu, x: u16, value: u8) {
    chip8::cpu::opcode::functions::set(cpu, &args(0x6000 | (x << 8) | value as u16));
}

#[test]
fn opcode_fields() {
    let op = Opcode::new(0x8124);
    assert_eq!(op.op, Instruction::Call);
    assert_eq!(op.args, Args { x: 1, y: 2, n: 4, nn: 0x24, nnn: 0x124 });
}

#[test]
fn decoder_selects_each_class() {
    let cases: [(u16, Instruction); 35] = [
        (0x00E0, Instruction::DispClear),
        (0x00EE, Instruction::RetSub),
        (0x1234, Instruction::Goto),
        (0x2345, Instruction::CallSub),
        (0x3456, Instruction::SkipEq),
        (0x4567, Instruction::SkipNotEq),
        (0x5670, Instruction::SkipRegEq),
        (0x6789, Instruction::SetConst),
        (0x789A, Instruction::AddConst),
        (0x8120, Instruction::SetReg),
        (0x8121, Instruction::BitwiseReg),
        (0x8122, Instruction::AndReg),
        (0x8123, Instruction::XorReg),
        (0x8124, Instruction::AddReg),
        (0x8125, Instruction::SubReg),
        (0x8126, Instruction::RightShiftReg),
        (0x8127, Instruction::SubRegStore),
        (0x812E, Instruction::LeftShiftReg),
        (0x9120, Instruction::NotEqReg),
        (0xA123, Instruction::Mvi),
        (0xB123, Instruction::JmpOffset),
        (0xC1FF, Instruction::BitwiseRand),
        (0xD125, Instruction::Display),
        (0xE19E, Instruction::SkipOnKey),
        (0xE1A1, Instruction::SkipNotOnKey),
        (0xF107, Instruction::GetDelay),
        (0xF10A, Instruction::GetKeyBlock),
        (0xF115, Instruction::SetDelayTimer),
        (0xF118, Instruction::SetSoundTimer),
        (0xF11E, Instruction::AddRegI),
        (0xF129, Instruction::SetISprite),
        (0xF133, Instruction::SetBcd),
        (0xF155, Instruction::RegDump),
        (0xF165, Instruction::RegLoad),
        (0x01E0, Instruction::DispClear),
    ];
    for (word, op) in cases {
        let d = decode_opcode(word).unwrap();
        assert_eq!(d.op, op, "word {:04X}", word);
        assert_eq!(d.args, args(word));
    }
}

#[test]
fn decoder_rejects_unknown_words() {
    for word in [0x0000u16, 0x0123, 0x00E1, 0x8008, 0x800F, 0xE000, 0xE19F, 0xF000, 0xF1FF] {
        assert_eq!(decode_opcode(word), Err(CpuError::UnknownOpcode(word)));
    }
}

#[test]
fn machine_routine_call_is_unknown() {
    let mut cpu = machine();
    assert_eq!(call(&mut cpu, &args(0x0123)), Err(CpuError::UnknownOpcode(0x0123)));
    assert_eq!(cpu.program_counter(), 0x200);
}

#[test]
fn add_registers_all_pairs() {
    let mut cpu = machine();
    for a in 0..=255u8 {
        for b in 0..=255u8 {
            load(&mut cpu, 1, a);
            load(&mut cpu, 2, b);
            add_reg(&mut cpu, &args(0x8124));
            let sum = a as u16 + b as u16;
            assert_eq!(cpu.register(1), (sum % 256) as u8);
            assert_eq!(cpu.register(0xF), if sum > 255 { 1 } else { 0 });
            assert_eq!(cpu.register(2), b);
        }
    }
}

#[test]
fn subtract_registers_all_pairs() {
    let mut cpu = machine();
    for a in 0..=255u8 {
        for b in 0..=255u8 {
            load(&mut cpu, 3, a);
            load(&mut cpu, 4, b);
            sub_reg(&mut cpu, &args(0x8345));
            assert_eq!(cpu.register(3), a.wrapping_sub(b));
            assert_eq!(cpu.register(0xF), if a >= b { 1 } else { 0 });
        }
    }
}

#[test]
fn subtract_reversed_all_pairs() {
    let mut cpu = machine();
    for a in 0..=255u8 {
        for b in 0..=255u8 {
            load(&mut cpu, 3, a);
            load(&mut cpu, 4, b);
            sub_reg_store(&mut cpu, &args(0x8347));
            assert_eq!(cpu.register(3), b.wrapping_sub(a));
            assert_eq!(cpu.register(0xF), if b >= a { 1 } else { 0 });
        }
    }
}

#[test]
fn shifts_put_the_outgoing_bit_in_vf() {
    let mut cpu = machine();
    for a in 0..=255u8 {
        load(&mut cpu, 5, a);
        right_shift_reg(&mut cpu, &args(0x8506));
        assert_eq!(cpu.register(0xF), a & 1);
        assert_eq!(cpu.register(5), a >> 1);
        load(&mut cpu, 5, a);
        left_shift_reg(&mut cpu, &args(0x850E));
        assert_eq!(cpu.register(0xF), a >> 7);
        assert_eq!(cpu.register(5), a << 1);
    }
}

#[test]
fn add_to_flag_register_keeps_the_sum() {
    let mut cpu = machine();
    load(&mut cpu, 0xF, 200);
    load(&mut cpu, 1, 100);
    add_reg(&mut cpu, &args(0x8F14));
    assert_eq!(cpu.register(0xF), 44);
}

#[test]
fn bitwise_and_move() {
    let mut cpu = machine();
    load(&mut cpu, 1, 0b1100);
    load(&mut cpu, 2, 0b1010);
    bitwise_reg(&mut cpu, &args(0x8121));
    assert_eq!(cpu.register(1), 0b1110);
    load(&mut cpu, 1, 0b1100);
    and_reg(&mut cpu, &args(0x8122));
    assert_eq!(cpu.register(1), 0b1000);
    load(&mut cpu, 1, 0b1100);
    xor_reg(&mut cpu, &args(0x8123));
    assert_eq!(cpu.register(1), 0b0110);
    set_reg(&mut cpu, &args(0x8120));
    assert_eq!(cpu.register(1), 0b1010);
    assert_eq!(cpu.register(0xF), 0);
}

#[test]
fn add_immediate_wraps_without_flag() {
    let mut cpu = machine();
    load(&mut cpu, 7, 250);
    add_const(&mut cpu, &args(0x770A));
    assert_eq!(cpu.register(7), 4);
    assert_eq!(cpu.register(0xF), 0);
    assert_eq!(cpu.program_counter(), 0x204);
}

#[test]
fn skips_advance_by_four() {
    let mut cpu = machine();
    load(&mut cpu, 1, 9);
    load(&mut cpu, 2, 9);
    let pc = cpu.program_counter();
    skip_eq(&mut cpu, &args(0x3109));
    assert_eq!(cpu.program_counter(), pc + 4);
    skip_eq(&mut cpu, &args(0x3108));
    assert_eq!(cpu.program_counter(), pc + 6);
    skip_not_eq(&mut cpu, &args(0x4108));
    assert_eq!(cpu.program_counter(), pc + 10);
    skip_reg_eq(&mut cpu, &args(0x5120));
    assert_eq!(cpu.program_counter(), pc + 14);
    not_eq_reg(&mut cpu, &args(0x9120));
    assert_eq!(cpu.program_counter(), pc + 16);
    skip_not_on_key(&mut cpu, &args(0xE1A1)).unwrap();
    assert_eq!(cpu.program_counter(), pc + 20);
}

#[test]
fn jumps_do_not_auto_advance() {
    let mut cpu = machine();
    goto(&mut cpu, &args(0x1ABC));
    assert_eq!(cpu.program_counter(), 0xABC);
    load(&mut cpu, 0, 0x10);
    jmp_offset(&mut cpu, &args(0xB300));
    assert_eq!(cpu.program_counter(), 0x310);
}

#[test]
fn index_register_instructions() {
    let mut cpu = machine();
    mvi(&mut cpu, &args(0xA123));
    assert_eq!(cpu.index(), 0x123);
    load(&mut cpu, 3, 0x20);
    add_reg_i(&mut cpu, &args(0xF31E));
    assert_eq!(cpu.index(), 0x143);
    load(&mut cpu, 3, 0xF);
    set_i_sprite(&mut cpu, &args(0xF329));
    assert_eq!(cpu.index(), 75);
    assert_eq!(cpu.register(0xF), 0);
}

#[test]
fn random_with_given_byte() {
    let mut cpu = machine();
    bitwise_rand_value(&mut cpu, &args(0xC63C), 0xA5);
    assert_eq!(cpu.register(6), 0x24);
}

#[test]
fn bcd_digits_recombine_for_every_byte() {
    let mut cpu = machine();
    mvi(&mut cpu, &args(0xA400));
    for a in 0..=255u8 {
        load(&mut cpu, 2, a);
        set_bcd(&mut cpu, &args(0xF233)).unwrap();
        let (h, t, o) = (cpu.memory_at(0x400), cpu.memory_at(0x401), cpu.memory_at(0x402));
        assert!(h < 10 && t < 10 && o < 10);
        assert_eq!(100 * h as u16 + 10 * t as u16 + o as u16, a as u16);
    }
    load(&mut cpu, 2, 137);
    set_bcd(&mut cpu, &args(0xF233)).unwrap();
    assert_eq!([cpu.memory_at(0x400), cpu.memory_at(0x401), cpu.memory_at(0x402)], [1, 3, 7]);
}

#[test]
fn register_load_fills_from_memory() {
    let mut cpu = machine();
    for (x, value) in [(0u16, 11u8), (1, 22), (2, 33), (3, 44)] {
        load(&mut cpu, x, value);
    }
    mvi(&mut cpu, &args(0xA500));
    reg_dump(&mut cpu, &args(0xF355)).unwrap();
    for x in 0..4u16 {
        load(&mut cpu, x, 0);
    }
    load(&mut cpu, 4, 99);
    reg_load(&mut cpu, &args(0xF265)).unwrap();
    assert_eq!([cpu.register(0), cpu.register(1), cpu.register(2)], [11, 22, 33]);
    assert_eq!(cpu.register(3), 0);
    assert_eq!(cpu.register(4), 99);
    assert_eq!(cpu.index(), 0x500);
}

#[test]
fn register_dump_past_end_fails() {
    let mut cpu = machine();
    mvi(&mut cpu, &args(0xAFFE));
    let pc = cpu.program_counter();
    assert_eq!(reg_dump(&mut cpu, &args(0xF255)), Err(CpuError::AddressOutOfRange));
    assert_eq!(reg_load(&mut cpu, &args(0xF265)), Err(CpuError::AddressOutOfRange));
    assert_eq!(cpu.program_counter(), pc);
    assert_eq!(reg_dump(&mut cpu, &args(0xF155)), Ok(()));
}

#[test]
fn wait_for_key_takes_lowest_pressed() {
    let mut cpu = machine();
    get_key_block(&mut cpu, &args(0xF70A));
    assert_eq!(cpu.program_counter(), 0x200);
    cpu.key[9] = true;
    cpu.key[3] = true;
    get_key_block(&mut cpu, &args(0xF70A));
    assert_eq!(cpu.register(7), 3);
    assert_eq!(cpu.program_counter(), 0x202);
}

/// A machine whose memory at 0x300 holds the given sprite rows, with I there.
fn with_sprite(rows: &[u8]) -> Cpu {
    let mut program = vec![0u8; 0x100];
    program.extend_from_slice(rows);
    let mut cpu = Cpu::initialize(&vec![0u8; 80], &program).unwrap();
    mvi(&mut cpu, &args(0xA300));
    cpu
}

#[test]
fn draw_twice_restores_and_collides() {
    let mut cpu = with_sprite(&[0b1011_0001, 0b0100_1110, 0xFF]);
    cpu.gfx[64 * 31] = true;
    let before = cpu.gfx;
    load(&mut cpu, 1, 10);
    load(&mut cpu, 2, 7);
    display(&mut cpu, &args(0xD123)).unwrap();
    assert_eq!(cpu.register(0xF), 0);
    assert!(cpu.draw_flag);
    assert!(cpu.gfx[7 * 64 + 10] && !cpu.gfx[7 * 64 + 11] && cpu.gfx[7 * 64 + 17]);
    assert!(cpu.gfx[9 * 64 + 10] && cpu.gfx[9 * 64 + 17]);
    display(&mut cpu, &args(0xD123)).unwrap();
    assert_eq!(cpu.register(0xF), 1);
    assert_eq!(cpu.gfx, before);
}

#[test]
fn draw_of_empty_sprite_does_not_collide() {
    let mut cpu = with_sprite(&[0, 0]);
    display(&mut cpu, &args(0xD012)).unwrap();
    display(&mut cpu, &args(0xD012)).unwrap();
    assert_eq!(cpu.register(0xF), 0);
    assert!(cpu.gfx.iter().all(|p| !p));
}

#[test]
fn draw_clips_at_right_and_bottom_edges() {
    let mut cpu = with_sprite(&[0xFF; 5]);
    load(&mut cpu, 1, 60);
    load(&mut cpu, 2, 30);
    display(&mut cpu, &args(0xD125)).unwrap();
    let lit: Vec<usize> = (0..2048).filter(|&p| cpu.gfx[p]).collect();
    assert_eq!(lit, vec![30 * 64 + 60, 30 * 64 + 61, 30 * 64 + 62, 30 * 64 + 63,
        31 * 64 + 60, 31 * 64 + 61, 31 * 64 + 62, 31 * 64 + 63]);
    assert_eq!(cpu.register(0xF), 0);
}

#[test]
fn draw_coordinates_wrap_modulo_screen() {
    let mut cpu = with_sprite(&[0x80]);
    load(&mut cpu, 1, 64 + 5);
    load(&mut cpu, 2, 32 + 3);
    display(&mut cpu, &args(0xD121)).unwrap();
    assert!(cpu.gfx[3 * 64 + 5]);
    assert_eq!(cpu.gfx.iter().filter(|&&p| p).count(), 1);
}

#[test]
fn draw_past_end_of_memory_fails() {
    let mut cpu = machine();
    mvi(&mut cpu, &args(0xAFFC));
    assert_eq!(display(&mut cpu, &args(0xD015)), Err(CpuError::AddressOutOfRange));
    assert!(!cpu.draw_flag);
    assert_eq!(display(&mut cpu, &args(0xD014)), Ok(()));
}

#[test]
fn clear_display_unsets_every_pixel() {
    let mut cpu = machine();
    cpu.gfx[5] = true;
    cpu.gfx[2047] = true;
    disp_clear(&mut cpu, &args(0x00E0));
    assert!(cpu.gfx.iter().all(|p| !p));
    assert!(cpu.draw_flag);
    assert_eq!(cpu.program_counter(), 0x202);
}
