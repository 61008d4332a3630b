//! The containers of the compiled program: one template or function holds an
//! ordered instruction sequence plus per-unit metadata, and the circuit
//! binds the producer metadata with the template and function lists.
pub mod circuit;
pub mod function;
pub mod template;
