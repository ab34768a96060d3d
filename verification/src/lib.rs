//! Typed, bit-accurate views of the RISC-V hypervisor-extension control and
//! status registers.
//!
//! Each register is a machine word whose sub-ranges encode independent named
//! fields. A register view wraps one raw word and exposes range-checked
//! accessors for each field; fields with a closed set of legal codes have a
//! companion enumeration with exact decode and encode contracts.
//!
//! The privileged instructions that read and write the physical registers are
//! not part of this library; a view is constructed from a raw word and hands
//! a raw word back.

pub mod hedeleg;
pub mod hgatp;
pub mod hideleg;
pub mod hie;
pub mod hip;
pub mod hstatus;
pub mod hvip;
pub mod vsatp;
pub mod vscause;
pub mod vsie;
pub mod vsip;
pub mod vsstatus;
pub mod vstvec;
pub mod word;
