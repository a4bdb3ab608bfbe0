//! ARMv6K decoders.
pub mod arm;
pub mod thumb;
