//! A small client library for a block-explorer HTTP API: a validated domain
//! model for addresses, accounts and contracts, and a client that fetches a
//! contract's source code and ABI and decodes the JSON envelopes the API
//! returns.

use vstd::prelude::*;

pub mod eth;
pub mod etherscan;
pub mod json;

verus! {

} // verus!
