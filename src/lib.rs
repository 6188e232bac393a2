use vstd::prelude::*;

pub mod audio;
pub mod cpu;
pub mod gb;
pub mod memory;
pub mod ppu;
pub mod util;

verus! {

} // verus!
