//! Schema-driven code generator for CAN-bus parameter-group definitions.
//!
//! The library turns a parsed registry of bit-packed message definitions
//! into source-level type declarations and decode/encode scaffolding for a
//! downstream message library. Everything here is pure computation over
//! plain values: reading the registry document and writing the generated
//! files is left to the surrounding program.

pub mod driver;
pub mod emit;
pub mod ident;
pub mod numbers;
pub mod resolve;
pub mod schema;
pub mod strutil;
