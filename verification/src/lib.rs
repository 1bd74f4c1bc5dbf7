use vstd::prelude::*;

pub mod client;
pub mod decode;
pub mod enums;
pub mod errors;
pub mod filter;
pub mod ids;
pub mod json;
pub mod laws;
pub mod model;
pub mod numbers;
pub mod text;
pub mod urls;

verus! {

/// The public catalog endpoint used when no other base URL is configured.
pub const JOYENT_IMGAPI_URL: &'static str = "https://images.joyent.com/images";

} // verus!
