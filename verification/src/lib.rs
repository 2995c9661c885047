//! A verified CHIP-8 interpreter core: instruction decoding, the
//! register/ALU execution engine, the 4 KiB memory subsystem, the 64x32
//! XOR-blit display buffer, the 16-key keypad, and the per-frame driver
//! that serializes input sampling, execution and timer decrement.

pub mod isa;
pub mod keypad;
pub mod machine;
pub mod memory;
pub mod register;
pub mod screen;
