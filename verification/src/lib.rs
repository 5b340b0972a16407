//! Battery capability service: a verified mediation layer between a
//! structured operation catalog (charging policy, coupled charge limits,
//! defender clearing, health queries, generic feature properties) and an
//! unstructured, failure-prone attribute store of scalar text nodes.
//!
//! The attribute store is modelled by [`store::Store`]: a snapshot of the
//! nodes that currently exist, each with its text content and whether reads
//! and writes on it succeed, together with an ordered log of the writes that
//! were performed.  All resolution, ordering and error-mapping rules are
//! stated as contracts over that model and proved.  The thin harness that
//! copies real attribute nodes into and out of a snapshot lives outside the
//! library.

pub mod health;
pub mod levels;
pub mod paths;
pub mod service;
pub mod store;
pub mod sysfs;
pub mod table;
pub mod text;
