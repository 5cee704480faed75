//! Access-point selection and association supervision for a wireless radio.
//!
//! The crate holds the decisions of two control loops as explicit state
//! machines. The caller owns the radio: it performs each action a machine asks
//! for and hands back what the radio answered.

pub mod config;
pub mod error;
pub mod scan;
pub mod selector;
pub mod supervisor;
pub mod text;
