//! What the operations do, stated over calls: each law takes the arguments and the
//! results of one or more calls and says how they relate, in terms of the values that
//! go in and come out and of what the passed functions gave.

pub mod errors;
pub mod fingerprints;
pub mod groups;
pub mod identities;
pub mod messages;
pub mod pre_keys;
pub mod stores;
pub mod tables;
pub mod values;
