//! A named chat channel the bot may listen to.

use vstd::prelude::*;

verus! {

/// A chat channel, identified by its name.
#[derive(Debug, Clone, PartialEq)]
pub struct Channel {
    pub name: String,
}

} // verus!
