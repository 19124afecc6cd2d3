//! Vanity addresses for onion services: a search for ed25519 keys whose address starts with
//! chosen characters.
//!
//! The arithmetic of the search, from field elements to points of the curve, is proved correct
//! against the integers modulo the field prime and the group law of the curve.

pub mod alphabet;
pub mod bytes;
pub mod edwards;
pub mod field;
pub mod fp;
pub mod gate;
pub mod kernel;
pub mod keys;
pub mod laws;
pub mod modular;
pub mod onion;
pub mod order;
pub mod point;
pub mod powers;
pub mod prefix;
pub mod prime25519;
pub mod primes;
pub mod report;
pub mod ring;
pub mod session;
pub mod text;
pub mod tuning;
