//! gcpx - a library for managing named contexts of cloud credentials.
//!
//! A context is a saved bundle of one credential blob plus an optional
//! metadata record (provider configuration name, account, project, and an
//! optional secondary cluster context). The library models the on-disk
//! store of contexts together with its active-context marker, and implements
//! the save / switch / delete / run / login operations as verified
//! transitions on that model. Filesystem access and external tool
//! invocations stay outside the library: operations return the exact
//! sequence of filesystem effects to perform and the decisions to act on.

pub mod adapters;
pub mod errors;
pub mod laws;
pub mod metadata;
pub mod names;
pub mod ops;
pub mod order;
pub mod paths;
pub mod store;
