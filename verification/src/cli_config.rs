//! The client's configuration.  It has no real settings yet; the struct
//! keeps the shape the loader expects.

use vstd::prelude::*;

use crate::config::DefaultConfig;

verus! {

/// The client's settings.
#[derive(Debug)]
pub struct Config {
    something: i32,
}

impl DefaultConfig for Config {
    fn default(_path: &str) -> Self {
        Config { something: 0 }
    }
}

} // verus!
