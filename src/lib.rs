//! Zero-knowledge credential proofs: a verified model of the squaring
//! relation's constraint system over the BLS12-381 scalar field.

pub mod field;
pub mod r1cs;
pub mod circuit;
pub mod credential;
pub mod verification;
