//! Typed object-graph layer over an already-parsed FBX document tree.
//!
//! The low-level tree parser is an external collaborator: this crate receives
//! the parsed material as plain values (objects, connections, property
//! templates) and exposes typed object classification, scene-hierarchy
//! navigation, and validated typed property loading.
//!
//! Floating-point attribute values are carried as their IEEE 754 bit
//! patterns (`u32` / `u64`); conversion to machine floats happens outside
//! this crate.

pub mod document;
pub mod loaders;
pub mod model;
pub mod object;
pub mod property;
