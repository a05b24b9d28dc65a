//! Core of a bare-metal kernel for a Raspberry Pi 3 class board (BCM2837,
//! ARMv8-A). The library holds the board-independent logic — the mailbox
//! property protocol, the bump allocator, translation-table construction and
//! exception-syndrome decoding — with contracts proved by Verus. The thin
//! machine-facing shell (MMIO, system registers, barriers) lives outside.

pub mod cpu;
pub mod error;
pub mod gpu;
pub mod memory;
pub mod power;
pub mod serial;
pub mod timer;
