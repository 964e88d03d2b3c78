//! Guest-side runtime environment for smart contracts that run inside a
//! sandboxed host.
//!
//! Typed operations (storage access, cross-contract calls, event emission,
//! contract instantiation) are laid out as byte regions of one bounded
//! scratch buffer, handed to the host, and the host's status code and output
//! bytes are turned back into typed results. The library makes every
//! decision and no host call: a function lays out the regions of an
//! operation, the caller performs the host call, and a second function
//! reads the answer.
//!
//! The contracts say which bytes the host is handed and which typed result
//! each answer of the host yields. They are proved, except for the calls
//! into the canonical codec in [`scale`], for the splitting of a region in
//! [`buffer`] and for the copying of a path in [`e2e_config`], whose
//! contracts are taken on trust.
//!
//! - [`buffer`]: the scoped buffer and the sink that the codec writes to.
//! - [`codec`]: the canonical encoding, and the values that have one.
//! - [`types`]: the types that a deployment target fixes.
//! - [`error`]: the status codes of the host and the errors of operations.
//! - [`env`]: the environment instance and the layout of its operations.
//! - [`call`]: calls, delegate calls and instantiations.
//! - [`topics`]: the list of topics of an event.
//! - [`debug`]: the switch in front of debug messages.
//! - [`event_config`], [`e2e_config`]: the configurations that are read
//!   from attribute arguments.

pub mod error;
pub mod codec;
pub mod scale;
pub mod types;
pub mod buffer;
pub mod topics;
pub mod debug;
pub mod env;
pub mod call;
pub mod event_config;
pub mod e2e_config;
