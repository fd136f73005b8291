//! The firmware build configuration for the MSPM0 microcontroller family.
//!
//! The library computes the build recipe of the firmware: the ordered list of
//! steps (project settings, include directories, C files, defines, linker
//! script) that a build system then carries out.

pub mod recipe;
pub mod mspm0;
pub mod src;
pub mod makefile;
