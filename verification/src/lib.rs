//! Guest-side call layer for a confidential virtual machine.
//!
//! The guest requests privileged services from the hardware security monitor
//! (monitor calls) and, through it, from the hosting VMM (exit-to-host calls).
//! This crate builds the register blocks for each service leaf, translates raw
//! status words into typed errors, derives the shared-address bit from the
//! guest physical address width, and drives the page-acceptance walk as a
//! state machine.
//!
//! Issuing the privileged instruction itself is the platform's job: a runner
//! builds a request here, performs the call, and feeds the resulting status
//! and output registers back into the decoders and the acceptance engine.

pub mod accept;
pub mod facade;
pub mod mask;
pub mod regs;
pub mod status;
