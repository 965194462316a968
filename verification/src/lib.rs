//! Service supervision logic of the Sahnemd init system.
//!
//! The kernel is reached through raw system calls, which live in the
//! program around this library. Everything that decides what the init
//! system does with the kernel's answers lives here.

pub mod syscalls;
pub mod service;
pub mod deps;
pub mod supervisor;
pub mod ipc;
pub mod resource;
pub mod text;
