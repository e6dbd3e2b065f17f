//! Recovery of stored wireless-network credentials from a host configuration
//! service: a verified core that decodes fixed-width text fields, resolves
//! element paths inside a profile's hierarchical document, classifies the
//! authentication scheme, and drives the whole enumeration session through a
//! resource-safe state machine.

use vstd::prelude::*;

pub mod text;
pub mod doc;
pub mod classify;
pub mod engine;

verus! {

} // verus!
