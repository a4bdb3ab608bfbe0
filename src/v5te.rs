//! ARMv5TE decoders.
pub mod arm;
pub mod thumb;
