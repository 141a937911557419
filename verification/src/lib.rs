//! Client-side logic for a DNS hosting provider's JSON API: request bodies,
//! endpoint paths, response interpretation, and output rendering.
use vstd::prelude::*;

pub mod body;
pub mod json;
pub mod message;
pub mod model;
pub mod outcome;
pub mod paths;
pub mod render;
pub mod respond;

verus! {

/// The fixed base of every API URL.
pub const BASE_URL: &'static str = "https://api.porkbun.com/api/json/v3";

} // verus!
