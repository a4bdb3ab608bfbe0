//! ARMv6 decoders.
pub mod arm;
pub mod thumb;
