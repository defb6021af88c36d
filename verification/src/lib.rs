//! A scanline-driven picture processing unit: register bank, colour
//! resolver, pixel pipeline, mode scheduler and bus arbiter.

pub mod cpu;
pub mod gpu;
