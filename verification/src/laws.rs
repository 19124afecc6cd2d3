//! What the operations are for, stated on what goes in and what comes out.
//!
//! These laws speak of characters, bytes, counters and slots as they are, so that they hold the
//! definitions which the contracts use to their purpose.

pub mod address;
pub mod arithmetic;
pub mod harvest;
pub mod key_file;
pub mod launch;
pub mod prefixes;
pub mod run;
pub mod screen;
pub mod verdict;
pub mod writing;
