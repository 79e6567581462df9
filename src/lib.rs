//! Core of a binding generator: naming conventions, enum discriminant
//! assignment, the generated-class and error-code idioms, and the pass that
//! projects an inventory of such entities onto target-language source text.

pub mod naming;
pub mod enums;
pub mod config;
pub mod class_generated;
pub mod generate;
pub mod emit;
