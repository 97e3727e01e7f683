//! Host side of a sandbox that runs untrusted reconnaissance scripts: the
//! bridge between dynamically typed guest values and typed HTTP requests,
//! the per-script session store and error slot, and the registry's wire
//! protocol.
pub mod value;
pub mod options;
pub mod session;
pub mod host;
pub mod context;
pub mod registry;
