//! Process settings.
use vstd::prelude::*;

verus! {

/// Where the store lives.
#[derive(Debug, Clone)]
pub struct Config {
    pub database_url: String,
}

} // verus!
