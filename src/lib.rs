//! One stage of a sensor stream: decode time-stamped readings, keep the
//! latest value of each sensor, and plan the two derived output messages.
//!
//! Numeric values travel through this library as IEEE-754 double bit
//! patterns (`u64`); the arithmetic on them happens in the program around it.

pub mod json;

pub mod decode;
pub mod pipeline;
pub mod publish;
pub mod state;
pub mod variable;
