//! Hardware-independent flash traits and types.
pub mod flash;
