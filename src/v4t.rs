//! ARMv4T decoders.
pub mod arm;
pub mod thumb;
