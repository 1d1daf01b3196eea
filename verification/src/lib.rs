//! A CHIP-8 virtual machine: 4 KiB of memory, sixteen 8-bit registers, a
//! 64x32 monochrome display, a sixteen-key keypad and two 60 Hz timers.
//!
//! [`state`] describes the machine as a mathematical value and says what
//! every instruction, timer tick and host event makes of it. [`chip8`] holds
//! the machine itself, each of whose operations is proved to do what the
//! model says; [`laws`] holds what follows for the machine as a whole. The
//! one thing taken on trust is the random byte that `CXNN` draws.
//!
//! A host owns the window, the audio device and the clock. It hands the
//! machine its events, runs it frame by frame, and carries out what the
//! machine reports back: see [`host`].
pub mod memory;
pub mod screen;
pub mod keypad;
pub mod instruction;
pub mod synth;
pub mod state;
pub mod host;
pub mod chip8;
pub mod program;
pub mod laws;
