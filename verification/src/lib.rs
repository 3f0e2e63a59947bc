//! Core of a CAD-to-mesh conversion library.
//!
//! The library turns the shells of a boundary-representation exchange
//! document into one renderable triangle mesh.  This crate holds the
//! verified core: the closed error taxonomy with the exact diagnostic of
//! every pipeline stage, the argument validation, and the mesh assembler
//! that fans polygon faces into a flat triangle index buffer.  The
//! surrounding unverified shim does the file reading, the parsing, the
//! floating-point geometry and the raw boundary layout, and hands this
//! core plain values.

pub mod assemble;
pub mod error;
pub mod pipeline;
