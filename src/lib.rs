use vstd::prelude::*;

pub mod classify;
pub mod ingest;
pub mod library;
pub mod processing;
pub mod spectrum;
pub mod subscribers;
pub mod window;

verus! {

} // verus!
