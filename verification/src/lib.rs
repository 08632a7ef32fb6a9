//! Building SAPL authorization batches from an entity hierarchy and a list of
//! requests, and the decisions of the benchmark driver around them.
use vstd::prelude::*;

pub mod batch_laws;
pub mod bench;
pub mod entity;
pub mod json;
pub mod sapl_engine;
pub mod sapl_requests;

verus! {

} // verus!
