//! Deployment orchestration for a fixed set of interdependent on-chain
//! contracts.
//!
//! The crate provides a memoizing [`registry::AddressRegistry`] of contract
//! addresses, a [`linker`] that substitutes library placeholders in raw
//! bytecode, and an [`engine`] that drives the dependency-ordered deployment
//! as a step-by-step state machine.  All network traffic, key handling and
//! file output live outside the crate: a driver performs each [`engine::Action`]
//! the engine emits and reports the outcome back as an [`engine::Event`].

pub mod address;
pub mod contract_id;
pub mod engine;
pub mod laws;
pub mod linker;
pub mod registry;
