//! Display and sound coprocessor emulation: a byte-stream command interpreter
//! that renders into a software framebuffer, a terminal sub-mode, sprites and
//! tone scheduling.

pub mod cursor;
pub mod framebuffer;
pub mod modes;
pub mod geometry;
pub mod raster;
pub mod audio;
pub mod clock;
pub mod keymap;
pub mod protocol;
pub mod sprites;
pub mod vdp;
pub mod interpreter;
