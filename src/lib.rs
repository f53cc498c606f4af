//! Client-side protocol of the aido command lookup service: request building,
//! response classification, credential handling and user-facing reports.
use vstd::prelude::*;

pub mod json;
pub mod request;
pub mod model;
pub mod exchange;
pub mod session;
pub mod report;
pub mod intro;

verus! {

} // verus!
