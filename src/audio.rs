use vstd::prelude::*;

verus! {

/// The sound registers 0xFF10-0xFF3F: four channels' control bytes and the wave pattern RAM.
/// Synthesis happens elsewhere; this holds what the CPU writes.
pub struct Audio {
    regs: Vec<u8>,
}

/// Whether `addr` is one of the sound registers.
pub open spec fn audio_addr(addr: int) -> bool {
    0xFF10 <= addr < 0xFF40
}

/// Addresses in the sound block that hold nothing: they read as 0 and ignore writes.
pub open spec fn audio_unused(addr: int) -> bool {
    addr == 0xFF15 || addr == 0xFF1F || (0xFF27 <= addr < 0xFF30)
}

/// What a read of `addr` returns, given the register contents.
pub open spec fn audio_read(regs: Seq<u8>, addr: int) -> u8 {
    if audio_unused(addr) {
        0
    } else {
        regs[addr - 0xFF10]
    }
}

/// The register contents after a write of `val` at `addr`.
pub open spec fn audio_written(regs: Seq<u8>, addr: int, val: u8) -> Seq<u8> {
    if audio_unused(addr) {
        regs
    } else {
        regs.update(addr - 0xFF10, val)
    }
}

impl View for Audio {
    type V = Seq<u8>;

    closed spec fn view(&self) -> Seq<u8> {
        self.regs@
    }
}

impl Audio {
    /// All sound registers cleared.
    pub fn new() -> (r: Audio)
        ensures
            r@.len() == 0x30,
            forall|a: int| audio_addr(a) ==> #[trigger] audio_read(r@, a) == 0,
    {
        Audio { regs: vec![0u8; 0x30] }
    }

    /// Store `val` in the register at `addr`.
    pub fn write(&mut self, addr: usize, val: u8)
        requires
            old(self)@.len() == 0x30,
            audio_addr(addr as int),
        ensures
            final(self)@ == audio_written(old(self)@, addr as int, val),
    {
        if !(addr == 0xFF15 || addr == 0xFF1F || (0xFF27 <= addr && addr < 0xFF30)) {
            self.regs.set(addr - 0xFF10, val);
        }
    }

    /// The register at `addr`.
    pub fn read(&self, addr: usize) -> (r: u8)
        requires
            self@.len() == 0x30,
            audio_addr(addr as int),
        ensures
            r == audio_read(self@, addr as int),
    {
        if addr == 0xFF15 || addr == 0xFF1F || (0xFF27 <= addr && addr < 0xFF30) {
            0
        } else {
            self.regs[addr - 0xFF10]
        }
    }

    /// Advance by `ticks` clock ticks. No sound is generated, so no register changes.
    pub fn update(&mut self, ticks: u32)
        ensures
            final(self)@ == old(self)@,
    {
    }
}

} // verus!
