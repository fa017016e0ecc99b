//! Search for keypairs whose text address begins or ends with a chosen
//! pattern.
//!
//! * [`alphabet`]: the base-58 alphabet of addresses and ASCII case folding.
//! * [`confusable`]: flexible comparison, which accepts lookalike
//!   characters.
//! * [`matcher`]: whether an address satisfies a pattern, and the laws of
//!   the comparison.
//! * [`config`]: the configuration of a search and the checks that admit it.
//! * [`keys`]: keypairs with their public keys and addresses.
//! * [`search`]: the workers and the search that runs them in parallel.

pub mod alphabet;
pub mod confusable;
pub mod matcher;
pub mod config;
pub mod keys;
pub mod search;
