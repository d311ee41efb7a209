//! An interpreter for a small 8-bit virtual machine: 4096 bytes of memory,
//! sixteen 8-bit registers, a call stack, two countdown timers, a 64 x 32
//! monochrome framebuffer and a 16-key pad. Every instruction's effect is
//! stated over a mathematical model of the machine (`cpu::state`) and proved.
pub mod cpu;
