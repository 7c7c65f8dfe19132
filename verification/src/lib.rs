//! Control-transfer core of a RISC-V (RV32IM) virtual machine whose
//! executions are replayed by a proving circuit.
//!
//! The crate holds the privilege, ecall and trap dispatcher that sits between
//! an instruction decoder and the owner of the machine state, together with
//! the address types, the cycle-state vocabulary and the calling convention
//! of host-implemented syscalls.  Every state change is described over a
//! mathematical model of the machine ([`model::MachineState`]), and every
//! function of the dispatcher is proved against that model.
//!
//! - [`addr`], [`word`], [`platform`]: addresses, words as bytes, the fixed
//!   layout of the address space.
//! - [`model`]: the machine as mathematics, and [`context`]: what the owner
//!   of the machine state offers.
//! - [`protocol`], [`hostio`]: what each control transfer and each host
//!   transfer does to the model; [`machine`]: the dispatcher that does it.
//! - [`laws`], [`delivery`]: what holds of every run.
//! - [`store`]: an owner of machine state in ordinary memory.
//! - [`syscall`]: the boundary to host-implemented syscalls.
//! - [`seal`], [`transcript`], [`hashfn`], [`journal`]: small tools for provers.

pub mod addr;
pub mod word;
pub mod platform;
pub mod error;
pub mod model;
pub mod context;
pub mod protocol;
pub mod hostio;
pub mod machine;
pub mod laws;
pub mod delivery;
pub mod store;
pub mod syscall;
pub mod seal;
pub mod transcript;
pub mod hashfn;
pub mod journal;
