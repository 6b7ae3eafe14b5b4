//! Core of a Space Invaders arcade cabinet emulation: the memory-mapped I/O
//! ports and shift register, the frame clock that paces the CPU core and its
//! two per-frame interrupts, and the video decoder that turns the 1-bit
//! framebuffer into an RGBA image. The 8080 CPU core itself comes from the
//! `intel-8080-emu` crate and is driven through a small trusted boundary.

pub mod clock;
pub mod emulator;
pub mod machine;
pub mod video;

pub use clock::FrameClock;
pub use emulator::BootError;
pub use emulator::Emulator;
pub use machine::Button;
pub use machine::PortError;
pub use machine::SpaceInvaderDataBus;
pub use machine::SpaceInvaderMachine;
