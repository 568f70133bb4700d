//! Kernel source generation for computations over a 2-D grid.
//!
//! A computation is a tree of operations ([`graph`]). The tree is lowered to
//! the text of a kernel body, named runtime inputs are kept in an ordered
//! table ([`params`]), and a session ([`kernel`]) decides what is sent to the
//! execution backend and what its answers do to the session.

pub mod error;
pub mod graph;
pub mod kernel;
pub mod laws;
pub mod params;
pub mod text;

