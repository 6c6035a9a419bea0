//! Decoding of PE image section headers as they appear inside PDB streams.
//!
//! The crate has two layers: [`common`] holds the byte cursor and the
//! supporting value types, and [`pe`] holds the 40-byte section-header
//! record together with its parser and name accessor.

pub mod common;
pub mod pe;
