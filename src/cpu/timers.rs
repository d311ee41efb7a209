//! The two countdown timers.
use vstd::prelude::*;

use super::Cpu;

verus! {

/// One timer tick: the delay and sound timers each count down by one unless
/// already zero. Returns whether the sound timer was exactly 1 before the
/// tick, the audible boundary that the audio side reacts to.
pub fn update_timers(cpu: &mut Cpu) -> (beep: bool)
    ensures
        (final(cpu)@, beep) == old(cpu)@.tick(),
{
    if cpu.delay_timer > 0 {
        cpu.delay_timer = cpu.delay_timer - 1;
    }
    let beep = cpu.sound_timer == 1;
    if cpu.sound_timer > 0 {
        cpu.sound_timer = cpu.sound_timer - 1;
    }
    assert(cpu@ =~= old(cpu)@.tick().0);
    beep
}

} // verus!
