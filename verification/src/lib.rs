//! A CS-Cipher-style symmetric block cipher.
//!
//! The cipher transforms 8-byte blocks under a 128-bit master key. Its core
//! is a nibble substitution `p`, an 8x8 bit-matrix transpose `t`, a two-byte
//! nonlinear mixing step `m`, a key schedule deriving nine 64-bit subkeys,
//! and a seven-round block transform with a final whitening XOR. Decryption
//! is the proved mathematical inverse of encryption.

pub mod cipher;
pub mod cli;
pub mod errors;
pub mod laws;
pub mod model;

pub use cipher::Cipher;
pub use cipher::Direction;
pub use errors::CipherErrors;

