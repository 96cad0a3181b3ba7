// Key-pair boundary: issue opaque handles to asymmetric key pairs and take
// them back exactly once. The registry, not the caller, decides whether a
// handle is still valid.

pub mod key_pair;
pub mod provider;
pub mod registry;
pub mod boundary;
pub mod laws;
