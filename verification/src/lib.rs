//! A verified core for a stochastic bit-counting benchmark: every trial draws
//! two fixed-width random bit-vectors, combines them with a bitwise AND,
//! counts the surviving set bits, and a reduction engine folds all trial
//! outcomes into one global maximum.
pub mod popcount;
pub mod words;
pub mod wyrand;
pub mod entropy;
pub mod rng_ext;
pub mod reduce;
pub mod strategies;
pub mod doubles;
