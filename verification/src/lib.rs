//! Pseudorandom stream generation engine: blends OS randomness, timing and
//! pointer-motion entropy through a composite of hash primitives and a
//! one-time stream-cipher scramble, then maps the byte stream onto a
//! selectable character alphabet to form a password.

pub mod byteops;
pub mod cipher;
pub mod entropy;
pub mod generator;
pub mod hashes;
