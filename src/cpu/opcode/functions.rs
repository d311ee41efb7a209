//! One function per instruction. Each leaves the machine exactly in the state
//! that the model in `state` gives for it; the fallible ones leave the machine
//! untouched when they fail.
use vstd::prelude::*;

use super::Args;
use crate::cpu::state::{
    collides, covers, draw_sprite, pressed_key, sprite_bit, step_result, wrap16, CpuError, FLAG,
    GLYPH_HEIGHT, KEY_COUNT, MEMORY_SIZE, SCREEN_HEIGHT, SCREEN_SIZE, SCREEN_WIDTH, STACK_DEPTH,
};
use crate::cpu::Cpu;

verus! {

/// Relies on `rand::random::<u8>`: a byte from the thread-local generator.
/// Nothing is known of its value.
#[verifier::external_body]
fn random_byte() -> (r: u8) {
    rand::random::<u8>()
}

/// The program counter moved on by `k` bytes, wrapping at 16 bits.
fn advanced(pc: u16, k: u16) -> (r: u16)
    ensures
        r == wrap16(pc + k),
{
    ((pc as u32 + k as u32) % 0x10000) as u16
}

/// `0NNN`: machine-code routines are not run; the word counts as unknown.
pub fn call(cpu: &mut Cpu, args: &Args) -> (r: Result<(), CpuError>)
    ensures
        r == Err::<(), CpuError>(CpuError::UnknownOpcode(args.nnn)),
        final(cpu)@ == old(cpu)@,
{
    Err(CpuError::UnknownOpcode(args.nnn))
}

/// `00E0`: clears every pixel and sets the redraw flag.
pub fn disp_clear(cpu: &mut Cpu, args: &Args)
    ensures
        final(cpu)@ == old(cpu)@.disp_clear(),
{
    cpu.gfx = [false; SCREEN_SIZE];
    cpu.draw_flag = true;
    cpu.pc = advanced(cpu.pc, 2);
    assert(cpu@ =~= old(cpu)@.disp_clear());
}

/// `00EE`: pops the return address and moves past the call.
pub fn ret_sub(cpu: &mut Cpu, args: &Args) -> (r: Result<(), CpuError>)
    ensures
        step_result(r, old(cpu)@, final(cpu)@, old(cpu)@.ret_sub()),
{
    match cpu.stack.pop() {
        None => Err(CpuError::StackUnderflow),
        Some(ret) => {
            cpu.pc = advanced(ret, 2);
            assert(cpu@ =~= old(cpu)@.ret_sub().unwrap());
            Ok(())
        },
    }
}

/// `1NNN`: PC := NNN.
pub fn goto(cpu: &mut Cpu, args: &Args)
    ensures
        final(cpu)@ == old(cpu)@.goto(args.nnn),
{
    cpu.pc = args.nnn;
}

/// `2NNN`: pushes PC and jumps to NNN; fails when the stack is full.
pub fn call_sub(cpu: &mut Cpu, args: &Args) -> (r: Result<(), CpuError>)
    ensures
        step_result(r, old(cpu)@, final(cpu)@, old(cpu)@.call_sub(args.nnn)),
{
    if cpu.stack.len() >= STACK_DEPTH {
        return Err(CpuError::StackOverflow);
    }
    let pc = cpu.pc;
    cpu.stack.push(pc);
    cpu.pc = args.nnn;
    assert(cpu@ =~= old(cpu)@.call_sub(args.nnn).unwrap());
    Ok(())
}

/// `3XNN`: skips the next instruction if Vx == NN.
pub fn skip_eq(cpu: &mut Cpu, args: &Args)
    requires
        args.wf(),
    ensures
        final(cpu)@ == old(cpu)@.skip_eq(args.x as int, args.nn),
{
    let k: u16 = if cpu.v[args.x] == args.nn { 4 } else { 2 };
    cpu.pc = advanced(cpu.pc, k);
}

/// `4XNN`: skips the next instruction if Vx != NN.
pub fn skip_not_eq(cpu: &mut Cpu, args: &Args)
    requires
        args.wf(),
    ensures
        final(cpu)@ == old(cpu)@.skip_not_eq(args.x as int, args.nn),
{
    let k: u16 = if cpu.v[args.x] != args.nn { 4 } else { 2 };
    cpu.pc = advanced(cpu.pc, k);
}

/// `5XY0`: skips the next instruction if Vx == Vy.
pub fn skip_reg_eq(cpu: &mut Cpu, args: &Args)
    requires
        args.wf(),
    ensures
        final(cpu)@ == old(cpu)@.skip_reg_eq(args.x as int, args.y as int),
{
    let k: u16 = if cpu.v[args.x] == cpu.v[args.y] { 4 } else { 2 };
    cpu.pc = advanced(cpu.pc, k);
}

/// `6XNN`: Vx := NN.
pub fn set(cpu: &mut Cpu, args: &Args)
    requires
        args.wf(),
    ensures
        final(cpu)@ == old(cpu)@.set(args.x as int, args.nn),
{
    cpu.v[args.x] = args.nn;
    cpu.pc = advanced(cpu.pc, 2);
}

/// `7XNN`: Vx := (Vx + NN) mod 256; VF is left alone.
pub fn add_const(cpu: &mut Cpu, args: &Args)
    requires
        args.wf(),
    ensures
        final(cpu)@ == old(cpu)@.add_const(args.x as int, args.nn),
{
    cpu.v[args.x] = ((cpu.v[args.x] as u16 + args.nn as u16) % 256) as u8;
    cpu.pc = advanced(cpu.pc, 2);
}

/// `8XY0`: Vx := Vy.
pub fn set_reg(cpu: &mut Cpu, args: &Args)
    requires
        args.wf(),
    ensures
        final(cpu)@ == old(cpu)@.set_reg(args.x as int, args.y as int),
{
    cpu.v[args.x] = cpu.v[args.y];
    cpu.pc = advanced(cpu.pc, 2);
}

/// `8XY1`: Vx := Vx OR Vy.
pub fn bitwise_reg(cpu: &mut Cpu, args: &Args)
    requires
        args.wf(),
    ensures
        final(cpu)@ == old(cpu)@.bitwise_reg(args.x as int, args.y as int),
{
    cpu.v[args.x] = cpu.v[args.x] | cpu.v[args.y];
    cpu.pc = advanced(cpu.pc, 2);
}

/// `8XY2`: Vx := Vx AND Vy.
pub fn and_reg(cpu: &mut Cpu, args: &Args)
    requires
        args.wf(),
    ensures
        final(cpu)@ == old(cpu)@.and_reg(args.x as int, args.y as int),
{
    cpu.v[args.x] = cpu.v[args.x] & cpu.v[args.y];
    cpu.pc = advanced(cpu.pc, 2);
}

/// `8XY3`: Vx := Vx XOR Vy.
pub fn xor_reg(cpu: &mut Cpu, args: &Args)
    requires
        args.wf(),
    ensures
        final(cpu)@ == old(cpu)@.xor_reg(args.x as int, args.y as int),
{
    cpu.v[args.x] = cpu.v[args.x] ^ cpu.v[args.y];
    cpu.pc = advanced(cpu.pc, 2);
}

/// `8XY4`: VF := carry of Vx + Vy, then Vx := (Vx + Vy) mod 256.
pub fn add_reg(cpu: &mut Cpu, args: &Args)
    requires
        args.wf(),
    ensures
        final(cpu)@ == old(cpu)@.add_reg(args.x as int, args.y as int),
{
    let a = cpu.v[args.x] as u16;
    let b = cpu.v[args.y] as u16;
    cpu.v[FLAG] = if a + b > 255 { 1 } else { 0 };
    cpu.v[args.x] = ((a + b) % 256) as u8;
    cpu.pc = advanced(cpu.pc, 2);
}

/// `8XY5`: VF := 1 if Vx >= Vy (no borrow) else 0, then Vx := (Vx - Vy) mod 256.
pub fn sub_reg(cpu: &mut Cpu, args: &Args)
    requires
        args.wf(),
    ensures
        final(cpu)@ == old(cpu)@.sub_reg(args.x as int, args.y as int),
{
    let a = cpu.v[args.x];
    let b = cpu.v[args.y];
    cpu.v[FLAG] = if a >= b { 1 } else { 0 };
    cpu.v[args.x] = a.wrapping_sub(b);
    cpu.pc = advanced(cpu.pc, 2);
}

/// `8XY6`: VF := bit 0 of Vx, then Vx := Vx >> 1.
pub fn right_shift_reg(cpu: &mut Cpu, args: &Args)
    requires
        args.wf(),
    ensures
        final(cpu)@ == old(cpu)@.right_shift_reg(args.x as int),
{
    let a = cpu.v[args.x];
    assert(a & 1 == a % 2 && a >> 1 == a / 2) by (bit_vector);
    cpu.v[FLAG] = a & 1;
    cpu.v[args.x] = a >> 1;
    cpu.pc = advanced(cpu.pc, 2);
}

/// `8XY7`: VF := 1 if Vy >= Vx (no borrow) else 0, then Vx := (Vy - Vx) mod 256.
pub fn sub_reg_store(cpu: &mut Cpu, args: &Args)
    requires
        args.wf(),
    ensures
        final(cpu)@ == old(cpu)@.sub_reg_store(args.x as int, args.y as int),
{
    let a = cpu.v[args.x];
    let b = cpu.v[args.y];
    cpu.v[FLAG] = if b >= a { 1 } else { 0 };
    cpu.v[args.x] = b.wrapping_sub(a);
    cpu.pc = advanced(cpu.pc, 2);
}

/// `8XYE`: VF := bit 7 of Vx, then Vx := (Vx << 1) mod 256.
pub fn left_shift_reg(cpu: &mut Cpu, args: &Args)
    requires
        args.wf(),
    ensures
        final(cpu)@ == old(cpu)@.left_shift_reg(args.x as int),
{
    let a = cpu.v[args.x];
    assert((a & 0x80) >> 7 == a / 128 && a << 1 == ((a * 2) % 256) as u8) by (bit_vector);
    cpu.v[FLAG] = (a & 0x80) >> 7;
    cpu.v[args.x] = a << 1;
    cpu.pc = advanced(cpu.pc, 2);
}

/// `9XY0`: skips the next instruction if Vx != Vy.
pub fn not_eq_reg(cpu: &mut Cpu, args: &Args)
    requires
        args.wf(),
    ensures
        final(cpu)@ == old(cpu)@.not_eq_reg(args.x as int, args.y as int),
{
    let k: u16 = if cpu.v[args.x] != cpu.v[args.y] { 4 } else { 2 };
    cpu.pc = advanced(cpu.pc, k);
}

/// `ANNN`: I := NNN.
pub fn mvi(cpu: &mut Cpu, args: &Args)
    ensures
        final(cpu)@ == old(cpu)@.mvi(args.nnn),
{
    cpu.i = args.nnn;
    cpu.pc = advanced(cpu.pc, 2);
}

/// `BNNN`: PC := V0 + NNN.
pub fn jmp_offset(cpu: &mut Cpu, args: &Args)
    requires
        args.wf(),
    ensures
        final(cpu)@ == old(cpu)@.jmp_offset(args.nnn),
{
    cpu.pc = cpu.v[0] as u16 + args.nnn;
}

/// `CXNN` with the random byte given: Vx := `random` AND NN.
pub fn bitwise_rand_value(cpu: &mut Cpu, args: &Args, random: u8)
    requires
        args.wf(),
    ensures
        final(cpu)@ == old(cpu)@.bitwise_rand(args.x as int, args.nn, random),
{
    cpu.v[args.x] = random & args.nn;
    cpu.pc = advanced(cpu.pc, 2);
}

/// `CXNN`: Vx := (a random byte) AND NN. The returned byte is the one drawn.
pub fn bitwise_rand(cpu: &mut Cpu, args: &Args) -> (random: u8)
    requires
        args.wf(),
    ensures
        final(cpu)@ == old(cpu)@.bitwise_rand(args.x as int, args.nn, random),
{
    let random = random_byte();
    bitwise_rand_value(cpu, args, random);
    random
}

/// The sprite pixels of rows before `r`, and of row `r` before column `c`,
/// that land on pixel `p`: the part of a draw done so far.
spec fn covered_before(sprite: Seq<u8>, x0: int, y0: int, p: int, r: int, c: int) -> bool {
    let row = p / SCREEN_WIDTH as int - y0;
    let col = p % SCREEN_WIDTH as int - x0;
    covers(sprite, x0, y0, p) && (row < r || (row == r && col < c))
}

proof fn lemma_pixel_index(row: int, col: int)
    requires
        0 <= row,
        0 <= col < SCREEN_WIDTH,
    ensures
        (row * SCREEN_WIDTH + col) / SCREEN_WIDTH as int == row,
        (row * SCREEN_WIDTH + col) % SCREEN_WIDTH as int == col,
{
    vstd::arithmetic::div_mod::lemma_fundamental_div_mod_converse(
        row * SCREEN_WIDTH + col,
        SCREEN_WIDTH as int,
        row,
        col,
    );
}

/// Drawing pixel `c` of row `r` adds exactly pixel `(y0 + r, x0 + c)`.
proof fn lemma_covered_step(sprite: Seq<u8>, x0: int, y0: int, r: int, c: int, p: int)
    requires
        0 <= x0,
        0 <= y0,
        0 <= r < sprite.len(),
        0 <= c < 8,
        x0 + c < SCREEN_WIDTH,
        0 <= p,
    ensures
        covered_before(sprite, x0, y0, p, r, c + 1) == (covered_before(sprite, x0, y0, p, r, c)
            || (p == (y0 + r) * SCREEN_WIDTH + x0 + c && sprite_bit(
            sprite[r],
            c,
        ))),
        !covered_before(sprite, x0, y0, (y0 + r) * SCREEN_WIDTH + x0 + c, r, c),
{
    lemma_pixel_index(y0 + r, x0 + c);
    vstd::arithmetic::div_mod::lemma_fundamental_div_mod(p, SCREEN_WIDTH as int);
}

/// `DXYN`: XORs the N-row sprite read from memory at I onto the framebuffer
/// at (Vx mod 64, Vy mod 32), dropping what falls past the right or bottom
/// edge; VF := 1 if some lit pixel went dark, else 0; sets the redraw flag.
/// Fails when I+N-1 lies outside memory.
pub fn display(cpu: &mut Cpu, args: &Args) -> (r: Result<(), CpuError>)
    requires
        args.wf(),
    ensures
        step_result(
            r,
            old(cpu)@,
            final(cpu)@,
            old(cpu)@.display(args.x as int, args.y as int, args.n as int),
        ),
{
    let x0 = (cpu.v[args.x] % 64) as usize;
    let y0 = (cpu.v[args.y] % 32) as usize;
    let n = args.n as usize;
    let i = cpu.i as usize;
    if i + n > MEMORY_SIZE {
        return Err(CpuError::AddressOutOfRange);
    }
    let ghost sprite = old(cpu)@.sprite(n as int);
    let ghost g0 = cpu.gfx@;
    let ghost (gx, gy) = (x0 as int, y0 as int);
    let rows: usize = if y0 + n <= SCREEN_HEIGHT {
        n
    } else {
        SCREEN_HEIGHT - y0
    };
    let cols: usize = if x0 + 8 <= SCREEN_WIDTH {
        8
    } else {
        SCREEN_WIDTH - x0
    };
    let mut gfx = cpu.gfx;
    let mut collided = false;
    let mut r: usize = 0;
    while r < rows
        invariant
            gx == x0 && gy == y0,
            x0 < SCREEN_WIDTH,
            y0 < SCREEN_HEIGHT,
            rows <= n,
            rows == n || y0 + rows == SCREEN_HEIGHT,
            y0 + rows <= SCREEN_HEIGHT,
            cols <= 8,
            cols == 8 || x0 + cols == SCREEN_WIDTH,
            x0 + cols <= SCREEN_WIDTH,
            i + n <= MEMORY_SIZE,
            r <= rows,
            sprite == cpu.memory@.subrange(i as int, i + n),
            g0 == cpu.gfx@,
            forall|p: int|
                0 <= p < SCREEN_SIZE ==> #[trigger] gfx@[p] == (g0[p] != covered_before(
                    sprite,
                    gx,
                    gy,
                    p,
                    r as int,
                    0,
                )),
            collided == exists|p: int|
                0 <= p < SCREEN_SIZE && g0[p] && #[trigger] covered_before(
                    sprite,
                    gx,
                    gy,
                    p,
                    r as int,
                    0,
                ),
        decreases rows - r,
    {
        let byte = cpu.memory[i + r];
        let mut c: usize = 0;
        while c < cols
            invariant
                gx == x0 && gy == y0,
                x0 < SCREEN_WIDTH,
                y0 < SCREEN_HEIGHT,
                rows <= n,
                y0 + rows <= SCREEN_HEIGHT,
                cols <= 8,
                x0 + cols <= SCREEN_WIDTH,
                i + n <= MEMORY_SIZE,
                r < rows,
                c <= cols,
                byte == sprite[r as int],
                sprite == cpu.memory@.subrange(i as int, i + n),
                g0 == cpu.gfx@,
                forall|p: int|
                    0 <= p < SCREEN_SIZE ==> #[trigger] gfx@[p] == (g0[p] != covered_before(
                        sprite,
                        gx,
                        gy,
                        p,
                        r as int,
                        c as int,
                    )),
                collided == exists|p: int|
                    0 <= p < SCREEN_SIZE && g0[p] && #[trigger] covered_before(
                        sprite,
                        gx,
                        gy,
                        p,
                        r as int,
                        c as int,
                    ),
            decreases cols - c,
        {
            let p = (y0 + r) * SCREEN_WIDTH + x0 + c;
            let ghost (old_gfx, old_collided) = (gfx@, collided);
            proof {
                lemma_pixel_index((y0 + r) as int, (x0 + c) as int);
                lemma_covered_step(sprite, gx, gy, r as int, c as int, p as int);
            }
            let bit = (byte >> (7 - c as u8)) & 1 == 1;
            if bit {
                if gfx[p] {
                    collided = true;
                }
                gfx[p] = !gfx[p];
            }
            proof {
                let rr = r as int;
                let cc = c as int;
                assert forall|q: int| 0 <= q < SCREEN_SIZE implies #[trigger] gfx@[q] == (g0[q]
                    != covered_before(sprite, gx, gy, q, rr, cc + 1)) by {
                    lemma_covered_step(sprite, gx, gy, rr, cc, q);
                    assert(old_gfx[q] == (g0[q] != covered_before(sprite, gx, gy, q, rr, cc)));
                }
                if collided {
                    if old_collided {
                        let q = choose|q: int|
                            0 <= q < SCREEN_SIZE && g0[q] && #[trigger] covered_before(
                                sprite,
                                gx,
                                gy,
                                q,
                                rr,
                                cc,
                            );
                        lemma_covered_step(sprite, gx, gy, rr, cc, q);
                        assert(covered_before(sprite, gx, gy, q, rr, cc + 1));
                    } else {
                        assert(old_gfx[p as int] == g0[p as int]);
                        assert(covered_before(sprite, gx, gy, p as int, rr, cc + 1));
                    }
                } else {
                    assert forall|q: int|
                        0 <= q < SCREEN_SIZE && g0[q] implies !#[trigger] covered_before(
                        sprite,
                        gx,
                        gy,
                        q,
                        rr,
                        cc + 1,
                    ) by {
                        lemma_covered_step(sprite, gx, gy, rr, cc, q);
                        if covered_before(sprite, gx, gy, q, rr, cc) {
                            assert(old_collided);
                        }
                        if q == p && bit {
                            assert(old_gfx[q] == g0[q]);
                        }
                    }
                }
            }
            c = c + 1;
        }
        proof {
            let rr = r as int;
            let cc = c as int;
            assert forall|q: int| 0 <= q < SCREEN_SIZE implies covered_before(
                sprite,
                gx,
                gy,
                q,
                rr,
                cc,
            ) == covered_before(sprite, gx, gy, q, rr + 1, 0) by {
                vstd::arithmetic::div_mod::lemma_fundamental_div_mod(q, SCREEN_WIDTH as int);
                vstd::arithmetic::div_mod::lemma_mod_pos_bound(q, SCREEN_WIDTH as int);
            }
            if collided {
                let q = choose|q: int|
                    0 <= q < SCREEN_SIZE && g0[q] && #[trigger] covered_before(
                        sprite,
                        gx,
                        gy,
                        q,
                        rr,
                        cc,
                    );
                assert(covered_before(sprite, gx, gy, q, rr + 1, 0));
            }
            assert forall|q: int| 0 <= q < SCREEN_SIZE && g0[q] && #[trigger] covered_before(
                sprite,
                gx,
                gy,
                q,
                rr + 1,
                0,
            ) implies collided by {
                assert(covered_before(sprite, gx, gy, q, rr, cc));
            }
        }
        r = r + 1;
    }
    proof {
        let rr = r as int;
        assert forall|q: int| 0 <= q < SCREEN_SIZE implies covered_before(sprite, gx, gy, q, rr, 0)
            == covers(sprite, gx, gy, q) by {
            vstd::arithmetic::div_mod::lemma_fundamental_div_mod(q, SCREEN_WIDTH as int);
            vstd::arithmetic::div_mod::lemma_mod_pos_bound(q, SCREEN_WIDTH as int);
        }
        assert(gfx@ =~= draw_sprite(g0, sprite, gx, gy));
        if collided {
            let q = choose|q: int|
                0 <= q < SCREEN_SIZE && g0[q] && #[trigger] covered_before(sprite, gx, gy, q, rr, 0);
            assert(covers(sprite, gx, gy, q));
        }
        assert forall|q: int| 0 <= q < SCREEN_SIZE && g0[q] && #[trigger] covers(sprite, gx, gy, q) implies collided by {
            assert(covered_before(sprite, gx, gy, q, rr, 0));
        }
        assert(collided == collides(g0, sprite, gx, gy));
    }
    cpu.gfx = gfx;
    cpu.v[FLAG] = if collided {
        1
    } else {
        0
    };
    cpu.draw_flag = true;
    cpu.pc = advanced(cpu.pc, 2);
    assert(cpu@ =~= old(cpu)@.display(args.x as int, args.y as int, args.n as int).unwrap());
    Ok(())
}

/// `EX9E`: skips the next instruction if key Vx is pressed.
pub fn skip_on_key(cpu: &mut Cpu, args: &Args) -> (r: Result<(), CpuError>)
    requires
        args.wf(),
    ensures
        step_result(r, old(cpu)@, final(cpu)@, old(cpu)@.skip_on_key(args.x as int)),
{
    let key = cpu.v[args.x];
    if key as usize >= KEY_COUNT {
        return Err(CpuError::InvalidKey(key));
    }
    let k: u16 = if cpu.key[key as usize] { 4 } else { 2 };
    cpu.pc = advanced(cpu.pc, k);
    Ok(())
}

/// `EXA1`: skips the next instruction if key Vx is not pressed.
pub fn skip_not_on_key(cpu: &mut Cpu, args: &Args) -> (r: Result<(), CpuError>)
    requires
        args.wf(),
    ensures
        step_result(r, old(cpu)@, final(cpu)@, old(cpu)@.skip_not_on_key(args.x as int)),
{
    let key = cpu.v[args.x];
    if key as usize >= KEY_COUNT {
        return Err(CpuError::InvalidKey(key));
    }
    let k: u16 = if !cpu.key[key as usize] { 4 } else { 2 };
    cpu.pc = advanced(cpu.pc, k);
    Ok(())
}

/// `FX07`: Vx := delay timer.
pub fn get_delay(cpu: &mut Cpu, args: &Args)
    requires
        args.wf(),
    ensures
        final(cpu)@ == old(cpu)@.get_delay(args.x as int),
{
    cpu.v[args.x] = cpu.delay_timer;
    cpu.pc = advanced(cpu.pc, 2);
}

/// `FX0A`: with some key pressed, Vx := the lowest pressed key and PC moves
/// on; with none, nothing changes and the instruction runs again next cycle.
pub fn get_key_block(cpu: &mut Cpu, args: &Args)
    requires
        args.wf(),
    ensures
        final(cpu)@ == old(cpu)@.get_key_block(args.x as int),
{
    let mut k: usize = 0;
    while k < KEY_COUNT && !cpu.key[k]
        invariant
            k <= KEY_COUNT,
            pressed_key(cpu.key@, 0) == pressed_key(cpu.key@, k as int),
        decreases KEY_COUNT - k,
    {
        k = k + 1;
    }
    if k < KEY_COUNT {
        cpu.v[args.x] = k as u8;
        cpu.pc = advanced(cpu.pc, 2);
    }
}

/// `FX15`: delay timer := Vx.
pub fn set_delay_timer(cpu: &mut Cpu, args: &Args)
    requires
        args.wf(),
    ensures
        final(cpu)@ == old(cpu)@.set_delay_timer(args.x as int),
{
    cpu.delay_timer = cpu.v[args.x];
    cpu.pc = advanced(cpu.pc, 2);
}

/// `FX18`: sound timer := Vx.
pub fn set_sound_timer(cpu: &mut Cpu, args: &Args)
    requires
        args.wf(),
    ensures
        final(cpu)@ == old(cpu)@.set_sound_timer(args.x as int),
{
    cpu.sound_timer = cpu.v[args.x];
    cpu.pc = advanced(cpu.pc, 2);
}

/// `FX1E`: I := I + Vx, wrapping at 16 bits; VF is left alone.
pub fn add_reg_i(cpu: &mut Cpu, args: &Args)
    requires
        args.wf(),
    ensures
        final(cpu)@ == old(cpu)@.add_reg_i(args.x as int),
{
    cpu.i = ((cpu.i as u32 + cpu.v[args.x] as u32) % 0x10000) as u16;
    cpu.pc = advanced(cpu.pc, 2);
}

/// `FX29`: I := Vx * 5, the address of the font glyph for digit Vx.
pub fn set_i_sprite(cpu: &mut Cpu, args: &Args)
    requires
        args.wf(),
    ensures
        final(cpu)@ == old(cpu)@.set_i_sprite(args.x as int),
{
    cpu.i = cpu.v[args.x] as u16 * GLYPH_HEIGHT;
    cpu.pc = advanced(cpu.pc, 2);
}

/// `FX33`: the hundreds, tens and ones digits of Vx at I, I+1 and I+2;
/// fails when I+2 lies outside memory.
pub fn set_bcd(cpu: &mut Cpu, args: &Args) -> (r: Result<(), CpuError>)
    requires
        args.wf(),
    ensures
        step_result(r, old(cpu)@, final(cpu)@, old(cpu)@.set_bcd(args.x as int)),
{
    let i = cpu.i as usize;
    if i + 3 > MEMORY_SIZE {
        return Err(CpuError::AddressOutOfRange);
    }
    let a = cpu.v[args.x];
    cpu.memory[i] = a / 100;
    cpu.memory[i + 1] = (a / 10) % 10;
    cpu.memory[i + 2] = a % 10;
    cpu.pc = advanced(cpu.pc, 2);
    assert(cpu@ =~= old(cpu)@.set_bcd(args.x as int).unwrap());
    Ok(())
}

/// `FX55`: V0..Vx to memory at I..I+x; I stays as it is. Fails when I+x
/// lies outside memory.
pub fn reg_dump(cpu: &mut Cpu, args: &Args) -> (r: Result<(), CpuError>)
    requires
        args.wf(),
    ensures
        step_result(r, old(cpu)@, final(cpu)@, old(cpu)@.reg_dump(args.x as int)),
{
    let i = cpu.i as usize;
    let x = args.x;
    if i + x + 1 > MEMORY_SIZE {
        return Err(CpuError::AddressOutOfRange);
    }
    let mut memory = cpu.memory;
    for r in 0..x + 1
        invariant
            x < 16,
            i + x + 1 <= MEMORY_SIZE,
            forall|a: int|
                0 <= a < MEMORY_SIZE ==> #[trigger] memory@[a] == if i <= a < i + r {
                    cpu.v@[a - i]
                } else {
                    cpu.memory@[a]
                },
    {
        memory[i + r] = cpu.v[r];
    }
    cpu.memory = memory;
    cpu.pc = advanced(cpu.pc, 2);
    assert(cpu@ =~= old(cpu)@.reg_dump(args.x as int).unwrap());
    Ok(())
}

/// `FX65`: V0..Vx from memory at I..I+x; I stays as it is. Fails when I+x
/// lies outside memory.
pub fn reg_load(cpu: &mut Cpu, args: &Args) -> (r: Result<(), CpuError>)
    requires
        args.wf(),
    ensures
        step_result(r, old(cpu)@, final(cpu)@, old(cpu)@.reg_load(args.x as int)),
{
    let i = cpu.i as usize;
    let x = args.x;
    if i + x + 1 > MEMORY_SIZE {
        return Err(CpuError::AddressOutOfRange);
    }
    let mut v = cpu.v;
    for r in 0..x + 1
        invariant
            x < 16,
            i + x + 1 <= MEMORY_SIZE,
            forall|k: int|
                0 <= k < 16 ==> #[trigger] v@[k] == if k < r {
                    cpu.memory@[i + k]
                } else {
                    cpu.v@[k]
                },
    {
        v[r] = cpu.memory[i + r];
    }
    cpu.v = v;
    cpu.pc = advanced(cpu.pc, 2);
    assert(cpu@ =~= old(cpu)@.reg_load(args.x as int).unwrap());
    Ok(())
}

} // verus!
