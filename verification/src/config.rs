//! How the command framework is set up.

use vstd::prelude::*;

use crate::mention::TIM_ID;

verus! {

/// What starts a command.
pub const COMMAND_PREFIX: &'static str = "!";

/// The only user allowed to run the owner's commands.
pub const OWNER_ID: u64 = TIM_ID;

/// Commands from bots are ignored.
pub const IGNORE_BOTS: bool = true;

/// Commands from webhooks are ignored.
pub const IGNORE_WEBHOOKS: bool = true;

/// Commands in direct messages are refused.
pub const ALLOW_DM: bool = false;

} // verus!
