//! Host-side core of a desktop shell: a secret store over the platform
//! credential vault, restricted to a fixed allow-list of keys, and the
//! supervisor of the single local API sidecar process.

pub mod error;
pub mod secrets;
pub mod paths;
pub mod sidecar;
