//! Proof-carrying-code checking for AArch64 lowered code, with the fact
//! algebra it is built on, plus a few small host-side data types.

pub mod types;
pub mod fact;
pub mod context;
pub mod inst;
pub mod vcode;
pub mod check_spec;
pub mod check;
pub mod laws;
pub mod nn_ctx;
pub mod code_builder;
pub mod val;
