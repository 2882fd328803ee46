//! Witness computation, constraint checking and input parsing for a small
//! Halo2 proving kit over the Pallas base field.

pub mod bench;
pub mod circuit;
pub mod field;
pub mod hwinfo;
pub mod prime_cert;
pub mod primality;
pub mod text;
