//! Keys of the values shared between event handlers and commands.

use vstd::prelude::*;

verus! {

/// Names the shard manager among the client's shared values; the kill and
/// ping commands look it up by this key.
pub struct ShardManagerContainer;

} // verus!
