//! A record store that keeps one blog record per (key, owner) pair, at an
//! address derived from the two, with the create / overwrite / close
//! lifecycle and its authorization and size rules proved.

pub mod blogs;
pub mod host;
pub mod laws;
pub mod layout;
pub mod record;
pub mod store;
