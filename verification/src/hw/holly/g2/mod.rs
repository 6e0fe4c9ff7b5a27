//! The G2 bus and the AICA sound block behind it.
pub mod aica;
