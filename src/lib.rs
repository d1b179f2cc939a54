//! A client library for URL-shortening services: URL normalization, request
//! planning for a bit.ly-style API, and the mapping of provider replies onto a
//! small typed error set.
use vstd::prelude::*;

pub mod bitly;
pub mod error;
pub mod normalize;

verus! {

} // verus!
