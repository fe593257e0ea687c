//! Class identity and class metadata for a bytecode runtime: identity handles,
//! typed constant-pool access over a parsed class file, and the runtime shape of
//! ordinary and array classes.
pub mod id;
pub mod names;
pub mod pool;
pub mod class;
