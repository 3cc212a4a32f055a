//! Extraction of named type bindings from a declaration sequence, and
//! synthesis of runtime API implementations from them.
//!
//! A caller declares a handful of type aliases. [`extract::extract`] scans
//! the declarations for the fields of a [`schema::FieldSchema`], resolves
//! each binding to one identifier with [`resolver::fetch_ident`], and
//! refuses a sequence that leaves a field out. [`assets::assets_apis`] and
//! [`evm::evm_apis`] then emit the implementation of the runtime APIs of
//! their domain, by instantiating a fixed skeleton
//! ([`template::instantiate`]) with the identifiers found and with those
//! the caller supplies ([`context::Context`]).
//!
//! The EVM fragment encodes three small protocols, which this crate also
//! states on plain values: the filter that keeps the Ethereum transactions
//! of a list of extrinsics ([`extrinsics`]), the preparation of a simulated
//! call or creation ([`execution`]), and the pending-block simulation
//! ([`pending`]).
//!
//! [`config`] holds the traits through which a runtime names the types that
//! its pallets are configured with.

pub mod assets;
pub mod config;
pub mod context;
pub mod declaration;
pub mod evm;
pub mod execution;
pub mod extract;
pub mod extrinsics;
pub mod laws;
pub mod pending;
pub mod resolver;
pub mod schema;
pub mod template;
