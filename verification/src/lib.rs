//! Conformance harness core for a register-based bytecode virtual machine.
//!
//! Given an execution request, this library plans the VM's memory image,
//! resolves call targets through the reference loader's hash scheme, and
//! translates the machine's raw outcome into a canonical effects record that
//! can be compared bit-for-bit against an independent implementation.
//!
//! The bytecode engine itself is an external collaborator: this crate owns
//! everything that must be bit-compatible around it — layout construction,
//! call-target resolution, error-taxonomy translation, and the simulation of
//! nested-call account effects.

pub mod cpi;
pub mod dispatch;
pub mod errors;
pub mod layout;
pub mod resolver;
pub mod translate;
