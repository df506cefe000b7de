//! Capability interfaces for containers: narrow, composable operation
//! contracts (capacity, clear, length, push, swap, truncate, retain) that
//! characterize common container behaviors independently of how a container
//! stores its elements, together with conformance adapters that wire
//! concrete container kinds into those interfaces.

pub mod arrayvec_adapter;
pub mod capability;
pub mod composed;
pub mod laws;
pub mod manual;
pub mod smallvec_adapter;
pub mod std_adapters;
pub mod tinyvec_adapter;
