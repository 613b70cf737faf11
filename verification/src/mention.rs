//! The taunt posted when someone pings Tim.

use vstd::prelude::*;

verus! {

/// Tim's Discord user id; Tim also owns the bot.
pub const TIM_ID: u64 = 83281345949728768;

/// How long the taunt stays up, in milliseconds.
pub const TAUNT_LIFETIME_MS: u64 = 10000;

/// Whether one of the mentioned users is Tim.
pub open spec fn mentions_tim(mentioned: Seq<u64>) -> bool {
    mentioned.contains(TIM_ID)
}

/// The reply to a message that mentions the users in `mentioned`: a taunt
/// when Tim is among them, nothing otherwise.
pub fn tim(mentioned: &Vec<u64>) -> (r: Option<String>)
    ensures
        r is Some <==> mentions_tim(mentioned@),
        r matches Some(t) ==> t@ == "Imagine pinging Tim... <:dead:890777799537885255>"@,
{
    let mut i: usize = 0;
    while i < mentioned.len()
        invariant
            i <= mentioned.len(),
            forall|k: int| 0 <= k < i ==> mentioned@[k] != TIM_ID,
        decreases mentioned.len() - i,
    {
        if mentioned[i] == TIM_ID {
            assert(mentioned@[i as int] == TIM_ID);
            return Some(String::from_str("Imagine pinging Tim... <:dead:890777799537885255>"));
        }
        i = i + 1;
    }
    None
}


/// Law: a message mentions Tim exactly when one of its mentioned users has
/// Tim's id.
pub proof fn tim_is_found_by_id(mentioned: Seq<u64>)
    ensures
        mentions_tim(mentioned) <==> exists|i: int|
            0 <= i < mentioned.len() && #[trigger] mentioned[i] == 83281345949728768u64,
{
}

} // verus!
