//! A user-space interface to the Linux `io_uring` facility, written as the
//! logic of the rings: the kernel ABI records and their byte layout, the sizes
//! and offsets of the three shared regions, the index arithmetic of the
//! submission and completion rings, and the policy that decides when and how
//! to enter the kernel.
//!
//! Everything here works on plain values. Reading and writing the shared
//! memory and issuing the system calls is left to the caller, which hands the
//! values it observed to these functions and carries out what they return.
pub mod index;
pub mod le;
pub mod abi;
pub mod entry;
pub mod layout;
pub mod sq;
pub mod cq;
pub mod ring;
pub mod guarantees;
