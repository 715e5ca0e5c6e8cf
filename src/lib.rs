//! Kernel/userland boundary for RISC-V cores that only implement machine
//! mode: the saved register record of a process, the context-switch engine
//! that hands the register file to a process and takes it back after a trap,
//! the classification of trap causes, and the decoding of system calls.
pub mod stored_state;
pub mod syscall_decode;
pub mod hart;
pub mod boundary;
pub mod laws;
