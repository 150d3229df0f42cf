//! A 3-component vector algebra kernel.
//!
//! The vector type stores each component as the bit pattern of a 32-bit
//! floating-point number. The verifier does not model floating-point
//! arithmetic, so the scalar operations (addition, multiplication, square
//! root, ...) are supplied by the caller as closures; everything structural
//! about the vector operations — which components are combined, in which
//! order, and with which operand on which side — is stated in contracts and
//! verified.

pub mod laws;
pub mod vector;
