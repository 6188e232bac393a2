use vstd::prelude::*;

use crate::cpu::decode::CpuError;
use crate::cpu::semantics::{fetch_exec_spec, CpuView};
use crate::cpu::step_spec;
use crate::cpu::Cpu;
use crate::memory::cartridge::{Cartridge, CartridgeError};
use crate::memory::mbc::MbcType;
use crate::memory::{Memory, MemoryView};

verus! {

/// Clock ticks in one displayed frame: 456 per scanline, 154 scanlines.
pub const FRAME_CYCLES: u32 = 70224;

/// How far to run the console.
#[derive(Clone, Copy, Debug, PartialEq, Eq, Structural)]
pub enum Step {
    /// Run this many steps.
    InstCount(usize),
    /// Run until a frame's worth of clock ticks has passed.
    Frame,
}

/// Ticks into the frame and frames completed after a step costing `c` from `t` ticks and
/// `f` frames. Counting steps (`frame` false), reaching `FRAME_CYCLES` completes a frame and
/// starts the next at zero; running a frame (`frame` true), the ticks only add up.
pub open spec fn tick_after(frame: bool, t: u32, f: nat, c: u32) -> (u32, nat) {
    if frame {
        ((t + c) as u32, f)
    } else if t + c >= FRAME_CYCLES {
        (0u32, f + 1)
    } else {
        ((t + c) as u32, f)
    }
}

/// The states passed through by a run of successful steps: CPU and bus before each step
/// and after the last, the ticks into the frame and frames completed at each point, and
/// each step's cost.
pub struct Trace {
    pub cpus: Seq<CpuView>,
    pub mems: Seq<MemoryView>,
    pub ticks: Seq<u32>,
    pub frames: Seq<nat>,
    pub costs: Seq<u32>,
}

impl Trace {
    /// The number of steps.
    pub open spec fn steps(self) -> nat {
        self.costs.len()
    }

    /// Step `i` is a `step_spec` transition costing `costs[i]`, the ticks and frames follow
    /// from that cost, and, running a frame, the step starts at most `FRAME_CYCLES` ticks in.
    pub open spec fn link(self, frame: bool, i: int) -> bool {
        &&& frame ==> self.ticks[i] <= FRAME_CYCLES
        &&& step_spec(
            self.cpus[i],
            self.mems[i],
            Ok::<u32, CpuError>(self.costs[i]),
            self.cpus[i + 1],
            self.mems[i + 1],
        )
        &&& self.ticks[i + 1] == tick_after(frame, self.ticks[i], self.frames[i], self.costs[i]).0
        &&& self.frames[i + 1] == tick_after(frame, self.ticks[i], self.frames[i], self.costs[i]).1
    }

    /// The trace leads from CPU `s` and bus `m`, `t` ticks into the frame, to `s2` and `m2`,
    /// `t2` ticks into the frame with `f2` frames completed, one linked step at a time.
    pub open spec fn runs(
        self,
        frame: bool,
        s: CpuView,
        m: MemoryView,
        t: u32,
        s2: CpuView,
        m2: MemoryView,
        t2: u32,
        f2: nat,
    ) -> bool {
        let n = self.steps() as int;
        &&& self.cpus.len() == n + 1
        &&& self.mems.len() == n + 1
        &&& self.ticks.len() == n + 1
        &&& self.frames.len() == n + 1
        &&& self.cpus[0] == s && self.mems[0] == m && self.ticks[0] == t && self.frames[0] == 0
        &&& self.cpus[n] == s2 && self.mems[n] == m2 && self.ticks[n] == t2 && self.frames[n] == f2
        &&& forall|i: int| 0 <= i < n ==> #[trigger] self.link(frame, i)
    }

    /// The trace with one more step appended.
    pub open spec fn extended(self, c: u32, s2: CpuView, m2: MemoryView, t2: u32, f2: nat) -> Trace {
        Trace {
            cpus: self.cpus.push(s2),
            mems: self.mems.push(m2),
            ticks: self.ticks.push(t2),
            frames: self.frames.push(f2),
            costs: self.costs.push(c),
        }
    }

    /// The trace of no step at CPU `s` and bus `m`, `t` ticks into the frame.
    pub open spec fn start(s: CpuView, m: MemoryView, t: u32) -> Trace {
        Trace { cpus: seq![s], mems: seq![m], ticks: seq![t], frames: seq![0nat], costs: seq![] }
    }
}

/// One more successful step extends a run.
proof fn lemma_trace_extend(
    tr: Trace,
    frame: bool,
    s: CpuView,
    m: MemoryView,
    t: u32,
    s1: CpuView,
    m1: MemoryView,
    t1: u32,
    f1: nat,
    c: u32,
    s2: CpuView,
    m2: MemoryView,
)
    requires
        tr.runs(frame, s, m, t, s1, m1, t1, f1),
        frame ==> t1 <= FRAME_CYCLES,
        step_spec(s1, m1, Ok::<u32, CpuError>(c), s2, m2),
    ensures
        tr.extended(
            c,
            s2,
            m2,
            tick_after(frame, t1, f1, c).0,
            tick_after(frame, t1, f1, c).1,
        ).runs(
            frame,
            s,
            m,
            t,
            s2,
            m2,
            tick_after(frame, t1, f1, c).0,
            tick_after(frame, t1, f1, c).1,
        ),
        tr.extended(c, s2, m2, tick_after(frame, t1, f1, c).0, tick_after(frame, t1, f1, c).1).steps()
            == tr.steps() + 1,
{
    let t2 = tick_after(frame, t1, f1, c).0;
    let f2 = tick_after(frame, t1, f1, c).1;
    let tr2 = tr.extended(c, s2, m2, t2, f2);
    let n = tr.steps() as int;
    assert forall|i: int| 0 <= i < n + 1 implies #[trigger] tr2.link(frame, i) by {
        if i < n {
            assert(tr.link(frame, i));
        }
    }
}

/// A failed step changes nothing: the state is one whose decode fails.
proof fn lemma_failed_step(s: CpuView, m: MemoryView, e: CpuError, s2: CpuView, m2: MemoryView)
    requires
        step_spec(s, m, Err::<u32, CpuError>(e), s2, m2),
    ensures
        s2 == s,
        m2 == m,
        fetch_exec_spec(s, m) == Err::<(crate::cpu::semantics::Outcome, u32), CpuError>(e),
{
    if let Ok((o, c)) = fetch_exec_spec(s, m) {
        let mt = choose|mt: MemoryView| crate::cpu::step_tail(o, c, mt, s2, m2, Err::<u32, CpuError>(e));
        assert(crate::cpu::step_tail(o, c, mt, s2, m2, Err::<u32, CpuError>(e)));
    }
}

/// Why a ROM image cannot be started.
#[derive(Clone, Copy, Debug, PartialEq, Eq, Structural)]
pub enum GbError {
    /// The header was refused.
    Cartridge(CartridgeError),
    /// The header names a controller that this console does not emulate.
    UnsupportedController(MbcType),
}

/// The console: the CPU and the bus with the cartridge inserted.
pub struct Gb {
    pub cpu: Cpu,
    memory: Memory,
}

impl Gb {
    /// The bus is in a consistent state, with no DMA charge left pending between steps.
    pub closed spec fn wf(&self) -> bool {
        self.memory@.wf() && !self.memory@.dma_pending
    }

    /// The CPU of the console.
    pub closed spec fn cpu_state(&self) -> crate::cpu::semantics::CpuView {
        self.cpu@
    }

    /// The bus of the console.
    pub closed spec fn mem(&self) -> crate::memory::MemoryView {
        self.memory@
    }

    /// Start the console with a checked cartridge: refused unless its controller is a plain
    /// ROM or an MBC1.
    pub fn from_cartridge(cartridge: Cartridge) -> (r: Result<Gb, GbError>)
        requires
            cartridge@.wf(),
        ensures
            r is Ok <==> (cartridge@.mbc_type == MbcType::RomOnly || cartridge@.mbc_type
                == MbcType::Mbc1),
            r matches Err(e) ==> e == GbError::UnsupportedController(cartridge@.mbc_type),
            r matches Ok(g) ==> g.wf() && g.cpu_state().regs.pc == 0x0100 && !g.cpu_state().ime,
    {
        let t = cartridge.get_mbc_type();
        match t {
            MbcType::RomOnly | MbcType::Mbc1 => {
                let is_cgb = cartridge.is_cgb();
                let memory = Memory::from_cartridge(cartridge, is_cgb);
                Ok(Gb { cpu: Cpu::new(is_cgb), memory })
            },
            _ => Err(GbError::UnsupportedController(t)),
        }
    }

    /// Check a ROM image's header and start the console with it.
    pub fn from_rom(rom: Vec<u8>) -> (r: Result<Gb, GbError>)
        ensures
            crate::memory::cartridge::rom_error(rom@) matches Some(e) ==> r == Err::<
                Gb,
                GbError,
            >(GbError::Cartridge(e)),
            crate::memory::cartridge::rom_error(rom@) is None ==> (r is Ok <==> (
            crate::memory::cartridge::mbc_type_of(rom@[0x147]) == Some(MbcType::RomOnly)
                || crate::memory::cartridge::mbc_type_of(rom@[0x147]) == Some(MbcType::Mbc1))),
            r matches Ok(g) ==> g.wf(),
    {
        match Cartridge::from_rom(rom) {
            Err(e) => Err(GbError::Cartridge(e)),
            Ok(c) => Gb::from_cartridge(c),
        }
    }

    /// Execute one step (see `step_spec`); returns its clock ticks.
    pub fn step(&mut self) -> (r: Result<u32, CpuError>)
        requires
            old(self).wf(),
        ensures
            final(self).wf(),
            step_spec(old(self).cpu_state(), old(self).mem(), r, final(self).cpu_state(), final(self).mem()),
            r matches Ok(c) ==> 4 <= c <= 1336,
    {
        self.cpu.step(&mut self.memory)
    }

    /// The bus.
    pub fn memory(&self) -> (r: &Memory)
        ensures
            r@ == self.mem(),
    {
        &self.memory
    }

    /// Run as `step` asks, starting `ticks` into the current frame (below `FRAME_CYCLES`).
    /// Counting `n` steps: all `n` are taken (see `runs`) unless one fails; the result is the
    /// ticks into the frame and the frames completed. Running a frame: steps are taken while
    /// the ticks are at most `FRAME_CYCLES`, and the result is one frame and zero ticks. A
    /// failing step is one whose decode fails; it changes nothing and ends the run.
    pub fn run(&mut self, step: Step, ticks: u32) -> (r: Result<(u32, usize), CpuError>)
        requires
            old(self).wf(),
            ticks < FRAME_CYCLES,
        ensures
            final(self).wf(),
            r matches Ok((t, frames)) ==> t < FRAME_CYCLES,
            r matches Err(e) ==> fetch_exec_spec(final(self).cpu_state(), final(self).mem())
                == Err::<(crate::cpu::semantics::Outcome, u32), CpuError>(e),
            step == Step::InstCount(0) ==> r == Ok::<(u32, usize), CpuError>((ticks, 0usize)),
            step matches Step::InstCount(n) ==> (r matches Ok((t, frames)) ==> exists|
                tr: Trace,
                t2: u32,
                f2: nat,
            |
                tr.steps() == n as nat && t2 == t && f2 == frames && #[trigger] tr.runs(
                    false,
                    old(self).cpu_state(),
                    old(self).mem(),
                    ticks,
                    final(self).cpu_state(),
                    final(self).mem(),
                    t2,
                    f2,
                )),
            step matches Step::InstCount(n) ==> (r is Err ==> exists|tr: Trace, t2: u32, f2: nat|
                tr.steps() < n as nat && #[trigger] tr.runs(
                    false,
                    old(self).cpu_state(),
                    old(self).mem(),
                    ticks,
                    final(self).cpu_state(),
                    final(self).mem(),
                    t2,
                    f2,
                )),
            step is Frame ==> (r matches Ok((t, frames)) ==> t == 0 && frames == 1 && exists|
                tr: Trace,
                t2: u32,
                f2: nat,
            |
                t2 > FRAME_CYCLES && #[trigger] tr.runs(
                    true,
                    old(self).cpu_state(),
                    old(self).mem(),
                    ticks,
                    final(self).cpu_state(),
                    final(self).mem(),
                    t2,
                    f2,
                )),
            step is Frame ==> (r is Err ==> exists|tr: Trace, t2: u32, f2: nat|
                t2 <= FRAME_CYCLES && #[trigger] tr.runs(
                    true,
                    old(self).cpu_state(),
                    old(self).mem(),
                    ticks,
                    final(self).cpu_state(),
                    final(self).mem(),
                    t2,
                    f2,
                )),
    {
        let ghost s0 = self.cpu_state();
        let ghost m0 = self.mem();
        match step {
            Step::InstCount(count) => {
                let mut t = ticks;
                let mut frames: usize = 0;
                let mut k: usize = 0;
                let ghost mut tr = Trace::start(s0, m0, ticks);
                while k < count
                    invariant
                        step == Step::InstCount(count),
                        s0 == old(self).cpu_state() && m0 == old(self).mem(),
                        self.wf(),
                        t < FRAME_CYCLES,
                        k <= count,
                        frames <= k,
                        tr.steps() == k,
                        tr.runs(false, s0, m0, ticks, self.cpu_state(), self.mem(), t, frames as nat),
                    decreases count - k,
                {
                    let ghost s1 = self.cpu_state();
                    let ghost m1 = self.mem();
                    let ghost t1 = t;
                    let ghost f1 = frames as nat;
                    let c = match self.step() {
                        Err(e) => {
                            proof {
                                lemma_failed_step(s1, m1, e, self.cpu_state(), self.mem());
                                assert(tr.runs(false, s0, m0, ticks, self.cpu_state(), self.mem(), t1, f1));
                            }
                            return Err(e);
                        },
                        Ok(c) => c,
                    };
                    t = t + c;
                    if t >= FRAME_CYCLES {
                        frames = frames + 1;
                        t = 0;
                    }
                    k = k + 1;
                    proof {
                        lemma_trace_extend(tr, false, s0, m0, ticks, s1, m1, t1, f1, c, self.cpu_state(), self.mem());
                        tr = tr.extended(c, self.cpu_state(), self.mem(), t, frames as nat);
                    }
                }
                proof {
                    assert(tr.steps() == count);
                    assert(tr.runs(false, s0, m0, ticks, self.cpu_state(), self.mem(), t, frames as nat));
                    assert(s0 == old(self).cpu_state() && m0 == old(self).mem());
                }
                Ok((t, frames))
            },
            Step::Frame => {
                let mut t = ticks;
                let ghost mut f: nat = 0;
                let ghost mut tr = Trace::start(s0, m0, ticks);
                while t <= FRAME_CYCLES
                    invariant
                        step == Step::Frame,
                        s0 == old(self).cpu_state() && m0 == old(self).mem(),
                        self.wf(),
                        t <= FRAME_CYCLES + 1336,
                        f == 0,
                        tr.runs(true, s0, m0, ticks, self.cpu_state(), self.mem(), t, f),
                    decreases FRAME_CYCLES + 1336 - t,
                {
                    let ghost s1 = self.cpu_state();
                    let ghost m1 = self.mem();
                    let ghost t1 = t;
                    let c = match self.step() {
                        Err(e) => {
                            proof {
                                lemma_failed_step(s1, m1, e, self.cpu_state(), self.mem());
                                assert(tr.runs(true, s0, m0, ticks, self.cpu_state(), self.mem(), t1, f));
                            }
                            return Err(e);
                        },
                        Ok(c) => c,
                    };
                    t = t + c;
                    proof {
                        lemma_trace_extend(tr, true, s0, m0, ticks, s1, m1, t1, f, c, self.cpu_state(), self.mem());
                        tr = tr.extended(c, self.cpu_state(), self.mem(), t, f);
                    }
                }
                proof {
                    assert(tr.runs(true, s0, m0, ticks, self.cpu_state(), self.mem(), t, f));
                }
                Ok((0, 1))
            },
        }
    }
}

} // verus!
