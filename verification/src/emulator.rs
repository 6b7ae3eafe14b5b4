//! The CPU-core boundary and the scheduler built on it. The 8080 core from
//! `intel-8080-emu` owns the 64 KB memory and the cycle counter; it is held
//! opaquely and reached only through a small set of trusted calls, named
//! below. The scheduler itself - cycle budget, interrupt injection and the
//! instruction loop - is verified code.

use crate::clock::cycle_budget;
use crate::clock::interrupt_decision;
use crate::clock::FrameClock;
use crate::clock::FULL_FRAME_VECTOR;
use crate::clock::HALF_FRAME_VECTOR;
use crate::machine::SpaceInvaderDataBus;
use crate::video::decode_frame;
use crate::video::pixel_at;
use crate::video::pixel_ok;
use crate::video::PIXEL_HEIGHT;
use crate::video::PIXEL_WIDTH;
use crate::video::PIXEL_BUFFER_LEN;
use crate::video::VIDEO_RAM_LEN;
use intel_8080_emu::proc_state::Proc8080;
use vstd::prelude::*;

verus! {

/// Size of the CPU core's byte-addressable memory window.
pub const MEMORY_SIZE: usize = 65536;

/// First byte of the video RAM inside the CPU memory.
pub const VIDEO_RAM_BASE: usize = 0x2400;

/// One past the last byte of the video RAM inside the CPU memory.
pub const VIDEO_RAM_END: usize = 0x4000;

/// The 8080 CPU core together with its memory, held opaquely.
#[verifier::external_body]
pub struct Emulator {
    cpu: Proc8080<SpaceInvaderDataBus>,
}

/// The CPU core's cumulative cycle counter.
pub uninterp spec fn emulator_cycles(e: Emulator) -> u64;

/// The bytes of the video RAM window of the CPU core's memory.
pub uninterp spec fn emulator_vram(e: Emulator) -> Seq<u8>;

/// A startup fault: the ROM image does not fit the memory window.
#[derive(Clone, Copy, Debug, PartialEq, Eq, Structural)]
pub enum BootError {
    RomTooLarge,
}

/// Builds the CPU core's boot memory image: the ROM blob copied verbatim to
/// address 0, the rest of the 64 KB window zeroed. A blob larger than the
/// window is a fatal startup error.
pub fn build_memory_image(rom: &[u8]) -> (r: Result<Vec<u8>, BootError>)
    ensures
        r is Ok <==> rom@.len() <= MEMORY_SIZE,
        r matches Ok(m) ==> m@.len() == MEMORY_SIZE && m@.subrange(0, rom@.len() as int) == rom@
            && (forall|j: int| rom@.len() <= j < MEMORY_SIZE ==> m@[j] == 0u8),
        r matches Err(e) ==> e == BootError::RomTooLarge,
{
    if rom.len() > MEMORY_SIZE {
        return Err(BootError::RomTooLarge);
    }
    let mut m: Vec<u8> = Vec::new();
    let mut i: usize = 0;
    while i < rom.len()
        invariant
            i <= rom@.len() <= MEMORY_SIZE,
            m@.len() == i,
            forall|j: int| 0 <= j < i ==> m@[j] == rom@[j],
        decreases rom@.len() - i,
    {
        m.push(rom[i]);
        i += 1;
    }
    while m.len() < MEMORY_SIZE
        invariant
            rom@.len() <= m@.len() <= MEMORY_SIZE,
            forall|j: int| 0 <= j < rom@.len() ==> m@[j] == rom@[j],
            forall|j: int| rom@.len() <= j < m@.len() ==> m@[j] == 0u8,
        decreases MEMORY_SIZE - m@.len(),
    {
        m.push(0);
    }
    proof {
        assert(m@.subrange(0, rom@.len() as int) =~= rom@);
    }
    Ok(m)
}

impl Emulator {
    /// Relies on `Proc8080::new`: the memory image is taken verbatim, the
    /// cycle counter starts at zero, and the given bus handles every port
    /// instruction from then on.
    #[verifier::external_body]
    pub fn new(memory: Vec<u8>, bus: SpaceInvaderDataBus) -> (e: Emulator)
        requires
            memory@.len() == MEMORY_SIZE,
        ensures
            emulator_cycles(e) == 0,
            emulator_vram(e) == memory@.subrange(VIDEO_RAM_BASE as int, VIDEO_RAM_END as int),
    {
        Emulator { cpu: Proc8080::new(memory.into_boxed_slice(), bus) }
    }

    /// Relies on `Proc8080::cycles`: returns the cumulative cycle counter.
    #[verifier::external_body]
    pub fn cycles(&self) -> (r: u64)
        ensures
            r == emulator_cycles(*self),
    {
        self.cpu.cycles()
    }

    /// Relies on `Proc8080::emulate`: runs exactly one instruction and adds
    /// its cost - between 1 and 5 per the opcode cycle table - to the
    /// counter. The video RAM and the port registers may change in any way.
    /// A malformed program can make the CPU core itself abort, which is the
    /// cabinet's unrecoverable hardware-fault path.
    #[verifier::external_body]
    pub fn step(&mut self)
        requires
            emulator_cycles(*old(self)) <= u64::MAX - 5,
        ensures
            emulator_cycles(*final(self)) > emulator_cycles(*old(self)),
            emulator_cycles(*final(self)) <= emulator_cycles(*old(self)) + 5,
    {
        self.cpu.emulate();
    }

    /// Relies on `Proc8080::interrupt`: accepts a restart vector (it aborts
    /// above 7, so only the cabinet's vectors 1 and 2 are admitted here) and
    /// either runs the restart instruction, at a cost of at most 5 cycles,
    /// or ignores it while interrupts are disabled.
    #[verifier::external_body]
    pub fn interrupt(&mut self, vector: u8)
        requires
            1 <= vector <= 2,
            emulator_cycles(*old(self)) <= u64::MAX - 5,
        ensures
            emulator_cycles(*final(self)) >= emulator_cycles(*old(self)),
            emulator_cycles(*final(self)) <= emulator_cycles(*old(self)) + 5,
    {
        self.cpu.interrupt(vector);
    }

    /// Relies on `Proc8080::memory`: copies out the fixed video RAM window.
    #[verifier::external_body]
    pub fn video_ram(&self) -> (r: Vec<u8>)
        ensures
            r@ == emulator_vram(*self),
            r@.len() == VIDEO_RAM_LEN,
    {
        self.cpu.memory()[VIDEO_RAM_BASE..VIDEO_RAM_END].to_vec()
    }
}

/// Advances the CPU core one instruction at a time until its cycle counter
/// has grown by at least `cycle_budget`. The loop never splits an
/// instruction, so it may overshoot the budget by up to one instruction;
/// the overshoot is carried forward because the next budget is measured
/// from the same counter.
pub fn run_cpu(emu: &mut Emulator, cycle_budget: u64)
    requires
        emulator_cycles(*old(emu)) + cycle_budget <= u64::MAX - 5,
    ensures
        emulator_cycles(*final(emu)) >= emulator_cycles(*old(emu)) + cycle_budget,
        emulator_cycles(*final(emu)) < emulator_cycles(*old(emu)) + cycle_budget + 5,
{
    let start: u64 = emu.cycles();
    let target: u64 = start + cycle_budget;
    let mut current: u64 = start;
    while current < target
        invariant
            target == emulator_cycles(*old(emu)) + cycle_budget,
            target <= u64::MAX - 5,
            current == emulator_cycles(*emu),
            emulator_cycles(*emu) >= emulator_cycles(*old(emu)),
            emulator_cycles(*emu) < target + 5,
        decreases target + 5 - current,
    {
        emu.step();
        current = emu.cycles();
    }
}

/// One host tick: decides and injects at most one hardware interrupt,
/// grants the elapsed-time cycle budget, and advances the CPU core to it.
/// Returns the injected interrupt vector, if any.
pub fn run_processor(emu: &mut Emulator, clock: &mut FrameClock, now_ns: u64) -> (fired: Option<
    u8,
>)
    requires
        now_ns >= old(clock).last_advance(),
        emulator_cycles(*old(emu)) + cycle_budget(old(clock).last_advance(), now_ns) <= u64::MAX
            - 10,
    ensures
        fired == interrupt_decision(
            old(clock).last_full_frame(),
            old(clock).half_interrupt_done(),
            now_ns,
        ),
        final(clock).last_advance() == now_ns,
        fired == Some(FULL_FRAME_VECTOR) ==> final(clock).last_full_frame() == now_ns && !final(clock).half_interrupt_done(),
        fired == Some(HALF_FRAME_VECTOR) ==> final(clock).last_full_frame() == old(clock).last_full_frame() && final(clock).half_interrupt_done(),
        fired is None ==> final(clock).last_full_frame() == old(clock).last_full_frame() && final(clock).half_interrupt_done() == old(clock).half_interrupt_done(),
        emulator_cycles(*final(emu)) >= emulator_cycles(*old(emu)) + cycle_budget(
            old(clock).last_advance(),
            now_ns,
        ),
        emulator_cycles(*final(emu)) < emulator_cycles(*old(emu)) + cycle_budget(
            old(clock).last_advance(),
            now_ns,
        ) + 10,
{
    let (fired, budget) = clock.advance(now_ns);
    match fired {
        Some(vector) => emu.interrupt(vector),
        None => (),
    }
    run_cpu(emu, budget);
    fired
}

/// Decodes the CPU core's current video RAM into a fresh RGBA frame, fully
/// overwritten on every call.
pub fn render_frame(emu: &Emulator) -> (buf: Vec<u8>)
    ensures
        buf@.len() == PIXEL_BUFFER_LEN,
        forall|i: int, b: int|
            0 <= i < VIDEO_RAM_LEN && 0 <= b < 8 ==> #[trigger] pixel_ok(
                emulator_vram(*emu),
                buf@,
                i,
                b,
            ),
        forall|x: int, y: int|
            0 <= x < PIXEL_WIDTH && 0 <= y < PIXEL_HEIGHT ==> #[trigger] pixel_at(
                emulator_vram(*emu),
                buf@,
                x,
                y,
            ),
{
    let vram = emu.video_ram();
    decode_frame(vram.as_slice())
}

/// Boots the cabinet core: the ROM blob at address zero of a zeroed 64 KB
/// memory, the cycle counter at zero, and a fresh frame clock anchored at
/// `now_ns`. A blob that does not fit the memory window is a fatal startup
/// error. A blob that ends below the video RAM leaves the video RAM all
/// zeros.
pub fn boot(rom: &[u8], bus: SpaceInvaderDataBus, now_ns: u64) -> (r: Result<
    (Emulator, FrameClock),
    BootError,
>)
    ensures
        r is Ok <==> rom@.len() <= MEMORY_SIZE,
        r matches Ok(p) ==> emulator_cycles(p.0) == 0 && p.1.last_advance() == now_ns
            && p.1.last_full_frame() == now_ns && !p.1.half_interrupt_done(),
        r matches Ok(p) ==> (rom@.len() <= VIDEO_RAM_BASE ==> forall|j: int|
            0 <= j < VIDEO_RAM_LEN ==> emulator_vram(p.0)[j] == 0u8),
        r matches Err(e) ==> e == BootError::RomTooLarge,
{
    let memory = match build_memory_image(rom) {
        Ok(m) => m,
        Err(e) => {
            return Err(e);
        },
    };
    let emu = Emulator::new(memory, bus);
    let clock = FrameClock::new(now_ns);
    Ok((emu, clock))
}

} // verus!
