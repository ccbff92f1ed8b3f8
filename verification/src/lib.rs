//! A small s-expression language for geometric constructions: a tokenizer,
//! an evaluator with a mutable variable environment, and a library of
//! geometric operations (points, line segments, circles, triangles, angles).
//!
//! Floating-point coordinates are carried as IEEE 754 bit patterns
//! ([`numeric::Real`]); every elementary floating-point operation is answered
//! by a caller-supplied numeric kernel (see [`numeric`]), so that the random
//! point source and the float arithmetic are substitutable, and everything
//! around them is verified.

pub mod functions;
pub mod geometry;
pub mod interpreter;
pub mod lexer;
pub mod numeric;
pub mod types;

pub use numeric::NumRequest;
pub use numeric::NumResponse;
pub use numeric::Real;
