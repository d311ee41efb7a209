//! Properties of the instruction semantics that hold for all inputs.
use vstd::prelude::*;

use super::state::{
    covers, draw_sprite, flag, sprite_bit, CpuState, FLAG, MEMORY_SIZE, SCREEN_HEIGHT, SCREEN_SIZE,
    SCREEN_WIDTH,
};

verus! {

/// Adding registers, for any a = Vx and b = Vy: Vx becomes (a + b) mod 256
/// and VF becomes 1 exactly when a + b > 255. (With x = F the two results
/// share one register and the sum wins.)
pub proof fn lemma_add_reg_carry(s: CpuState, x: int, y: int)
    requires
        s.wf(),
        0 <= x < FLAG,
        0 <= y < 16,
    ensures
        s.add_reg(x, y).v[x] == (s.v[x] + s.v[y]) % 256,
        s.add_reg(x, y).v[FLAG as int] == flag(s.v[x] + s.v[y] > 255),
{
}

/// Subtracting registers, for any a = Vx and b = Vy: VF becomes 1 exactly
/// when a >= b, and Vx becomes (a - b) mod 256.
pub proof fn lemma_sub_reg_borrow(s: CpuState, x: int, y: int)
    requires
        s.wf(),
        0 <= x < FLAG,
        0 <= y < 16,
    ensures
        s.sub_reg(x, y).v[x] == (s.v[x] - s.v[y]) % 256,
        s.sub_reg(x, y).v[FLAG as int] == flag(s.v[x] >= s.v[y]),
{
}

/// Shifting right puts bit 0 of the source in VF; shifting left puts bit 7
/// of the source in VF.
pub proof fn lemma_shift_flag(s: CpuState, x: int)
    requires
        s.wf(),
        0 <= x < FLAG,
    ensures
        s.right_shift_reg(x).v[FLAG as int] == s.v[x] & 1,
        s.right_shift_reg(x).v[x] == s.v[x] >> 1,
        s.left_shift_reg(x).v[FLAG as int] == (s.v[x] >> 7) & 1,
        s.left_shift_reg(x).v[x] == ((s.v[x] as u16) << 1) % 256,
{
    let a = s.v[x];
    assert(a & 1 == a % 2 && a >> 1 == a / 2) by (bit_vector);
    assert((a >> 7) & 1 == a / 128 && ((a as u16) << 1) % 256 == (a * 2) % 256) by (bit_vector);
}

/// XOR-ing the same sprite twice at the same place gives back the
/// framebuffer as it was.
pub proof fn lemma_draw_twice_restores(gfx: Seq<bool>, sprite: Seq<u8>, x0: int, y0: int)
    ensures
        draw_sprite(draw_sprite(gfx, sprite, x0, y0), sprite, x0, y0) == gfx,
{
    assert(draw_sprite(draw_sprite(gfx, sprite, x0, y0), sprite, x0, y0) =~= gfx);
}

/// Whether some set bit of the sprite lands on the screen.
pub open spec fn sprite_visible(sprite: Seq<u8>, x0: int, y0: int) -> bool {
    exists|r: int, c: int|
        0 <= r < sprite.len() && 0 <= c < 8 && x0 + c < SCREEN_WIDTH && y0 + r < SCREEN_HEIGHT
            && #[trigger] sprite_bit(sprite[r], c)
}

/// The pixel that sprite bit (r, c) lands on, for a sprite at (x0, y0).
pub open spec fn pixel_at(x0: int, y0: int, r: int, c: int) -> int {
    (y0 + r) * SCREEN_WIDTH + x0 + c
}

proof fn lemma_pixel_at(x0: int, y0: int, r: int, c: int)
    requires
        0 <= x0,
        0 <= y0,
        0 <= r,
        0 <= c,
        x0 + c < SCREEN_WIDTH,
        y0 + r < SCREEN_HEIGHT,
    ensures
        0 <= pixel_at(x0, y0, r, c) < SCREEN_SIZE,
        pixel_at(x0, y0, r, c) / SCREEN_WIDTH as int == y0 + r,
        pixel_at(x0, y0, r, c) % SCREEN_WIDTH as int == x0 + c,
{
    vstd::arithmetic::div_mod::lemma_fundamental_div_mod_converse(
        pixel_at(x0, y0, r, c),
        SCREEN_WIDTH as int,
        y0 + r,
        x0 + c,
    );
    assert((y0 + r) * SCREEN_WIDTH <= (SCREEN_HEIGHT - 1) * SCREEN_WIDTH) by (nonlinear_arith)
        requires
            y0 + r < SCREEN_HEIGHT,
    ;
}

/// A draw changes only pixels right of and below the sprite's corner, within
/// its 8 x N box: a sprite bit whose column would be 64 or more, or whose row
/// would be 32 or more, is dropped and never wraps to the other edge. Every
/// set sprite bit that stays on the screen flips its pixel.
pub proof fn lemma_draw_clips(gfx: Seq<bool>, sprite: Seq<u8>, x0: int, y0: int)
    requires
        gfx.len() == SCREEN_SIZE,
        0 <= x0 < SCREEN_WIDTH,
        0 <= y0 < SCREEN_HEIGHT,
    ensures
        forall|p: int|
            0 <= p < SCREEN_SIZE && #[trigger] draw_sprite(gfx, sprite, x0, y0)[p] != gfx[p] ==> (x0 <= (p
                % SCREEN_WIDTH as int) < x0 + 8 && y0 <= (p / SCREEN_WIDTH as int) < y0 + sprite.len()),
        forall|r: int, c: int|
            0 <= r < sprite.len() && 0 <= c < 8 && x0 + c < SCREEN_WIDTH && y0 + r < SCREEN_HEIGHT
                ==> draw_sprite(gfx, sprite, x0, y0)[pixel_at(x0, y0, r, c)] == (gfx[pixel_at(
                x0,
                y0,
                r,
                c,
            )] != #[trigger] sprite_bit(sprite[r], c)),
{
    assert forall|r: int, c: int|
        0 <= r < sprite.len() && 0 <= c < 8 && x0 + c < SCREEN_WIDTH && y0 + r
            < SCREEN_HEIGHT implies draw_sprite(gfx, sprite, x0, y0)[pixel_at(x0, y0, r, c)] == (
    gfx[pixel_at(x0, y0, r, c)] != #[trigger] sprite_bit(sprite[r], c)) by {
        lemma_pixel_at(x0, y0, r, c);
    }
}

/// Drawing the same sprite twice at the same place: the framebuffer ends as
/// it was, and when the pixels under the sprite start dark, the second draw
/// reports a collision exactly when some set bit of the sprite is on screen.
/// VX and VY must not be VF, which the first draw overwrites.
pub proof fn lemma_display_twice(s: CpuState, x: int, y: int, n: int)
    requires
        s.wf(),
        0 <= x < FLAG,
        0 <= y < FLAG,
        0 <= n < 16,
        s.display(x, y, n) is Ok,
    ensures
        s.display(x, y, n).unwrap().display(x, y, n) is Ok,
        s.display(x, y, n).unwrap().display(x, y, n).unwrap().gfx == s.gfx,
        ({
            let x0 = s.v[x] as int % SCREEN_WIDTH as int;
            let y0 = s.v[y] as int % SCREEN_HEIGHT as int;
            (forall|p: int| 0 <= p < SCREEN_SIZE && covers(s.sprite(n), x0, y0, p) ==> !s.gfx[p])
                ==> s.display(x, y, n).unwrap().display(x, y, n).unwrap().v[FLAG as int] == flag(
                sprite_visible(s.sprite(n), x0, y0),
            )
        }),
{
    let t = s.display(x, y, n).unwrap();
    let x0 = s.v[x] as int % SCREEN_WIDTH as int;
    let y0 = s.v[y] as int % SCREEN_HEIGHT as int;
    let sprite = s.sprite(n);
    assert(t.v[x] == s.v[x] && t.v[y] == s.v[y]);
    assert(t.sprite(n) == sprite);
    lemma_draw_twice_restores(s.gfx, sprite, x0, y0);
    let u = t.display(x, y, n).unwrap();
    if forall|p: int| 0 <= p < SCREEN_SIZE && covers(sprite, x0, y0, p) ==> !s.gfx[p] {
        if sprite_visible(sprite, x0, y0) {
            let (r, c) = choose|r: int, c: int|
                0 <= r < sprite.len() && 0 <= c < 8 && x0 + c < SCREEN_WIDTH && y0 + r
                    < SCREEN_HEIGHT && #[trigger] sprite_bit(sprite[r], c);
            lemma_pixel_at(x0, y0, r, c);
            let p = pixel_at(x0, y0, r, c);
            assert(covers(sprite, x0, y0, p));
            assert(t.gfx[p]);
        } else {
            assert forall|p: int|
                0 <= p < SCREEN_SIZE && t.gfx[p] implies !#[trigger] covers(sprite, x0, y0, p) by {
                if covers(sprite, x0, y0, p) {
                    vstd::arithmetic::div_mod::lemma_fundamental_div_mod(p, SCREEN_WIDTH as int);
                    let r = p / SCREEN_WIDTH as int - y0;
                    let c = p % SCREEN_WIDTH as int - x0;
                    assert(sprite_bit(sprite[r], c));
                }
            }
        }
    }
}

/// The three digits that the decimal-conversion instruction stores make up
/// the register's value again: 100 h + 10 t + o == Vx, each digit below 10.
pub proof fn lemma_bcd_round_trip(s: CpuState, x: int)
    requires
        s.wf(),
        0 <= x < 16,
        s.i + 3 <= MEMORY_SIZE,
    ensures
        s.set_bcd(x) is Ok,
        ({
            let m = s.set_bcd(x).unwrap().memory;
            let i = s.i as int;
            &&& 100 * m[i] + 10 * m[i + 1] + m[i + 2] == s.v[x]
            &&& m[i] < 10 && m[i + 1] < 10 && m[i + 2] < 10
        }),
{
}

} // verus!
