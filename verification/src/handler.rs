//! The decisions the bot takes on gateway events: the presence it shows
//! once connected, which messages go through automod and what follows the
//! verdict, and how a newly seen guild is stored with its members fetched
//! page by page.

use vstd::prelude::*;
use vstd::string::StringSliceAdditionalSpecFns;
use vstd::utf8::{encode_utf8, is_char_boundary};

verus! {

/// Handles the gateway events the bot listens to.
pub struct Handler;

/// Encoding a concatenation concatenates the encodings.
proof fn lemma_encode_concat(a: Seq<char>, b: Seq<char>)
    ensures
        encode_utf8(a + b) == encode_utf8(a) + encode_utf8(b),
    decreases a.len(),
{
    if a.len() > 0 {
        assert((a + b).drop_first() =~= a.drop_first() + b);
        lemma_encode_concat(a.drop_first(), b);
        assert(encode_utf8(a + b) =~= encode_utf8(a) + encode_utf8(b));
    } else {
        assert(a + b =~= b);
        assert(encode_utf8(a) =~= Seq::<u8>::empty());
        assert(encode_utf8(a) + encode_utf8(b) =~= encode_utf8(b));
    }
}

/// What a message in a channel leads to.
#[derive(PartialEq, Eq, Structural, Clone, Copy, Debug)]
pub enum MessageRoute {
    /// Nothing: the message is not in a guild.
    Ignore,
    /// The message is logged, and nothing more: a bot wrote it.
    LogOnly,
    /// The message is logged and checked by automod.
    Moderate,
}

/// What follows automod's verdict on a message.
pub struct AfterVerdict {
    /// The message is stored with this verdict.
    pub store_permitted: bool,
    /// Whether the message is then checked for a mention of Tim.
    pub check_mentions: bool,
}

/// What happens when a guild becomes available.
#[derive(PartialEq, Eq, Structural, Clone, Copy, Debug)]
pub enum GuildCreateStep {
    /// Ask the store whether it knows the guild.
    LookUp,
    /// Store the guild, its roles and its members.
    Store,
    /// Nothing: the guild is known.
    Skip,
}

impl Handler {
    /// The activity shown once connected: the first seven bytes of the
    /// build's commit hash after "Version: ".
    pub fn ready(&self, git_hash: &str) -> (r: String)
        requires
            is_char_boundary(git_hash.spec_bytes(), 7),
        ensures
            encode_utf8(r@) == encode_utf8("Version: "@) + git_hash.spec_bytes().subrange(0, 7),
    {
        let (head, _) = git_hash.split_at(7);
        let mut r = String::from_str("Version: ");
        r.append(head);
        proof {
            lemma_encode_concat("Version: "@, head@);
        }
        r
    }

    /// Where a message goes: messages outside guilds are ignored, messages
    /// of bots only logged, and the rest also checked by automod.
    pub fn message(&self, in_guild: bool, from_bot: bool) -> (r: MessageRoute)
        ensures
            r == if !in_guild {
                MessageRoute::Ignore
            } else if from_bot {
                MessageRoute::LogOnly
            } else {
                MessageRoute::Moderate
            },
    {
        if !in_guild {
            MessageRoute::Ignore
        } else if from_bot {
            MessageRoute::LogOnly
        } else {
            MessageRoute::Moderate
        }
    }

    /// Steps after the check: the message is stored together with the
    /// verdict, and only an allowed message is checked for a mention of Tim.
    pub fn after_verdict(&self, permitted: bool) -> (r: AfterVerdict)
        ensures
            r.store_permitted == permitted,
            r.check_mentions == permitted,
    {
        AfterVerdict { store_permitted: permitted, check_mentions: permitted }
    }

    /// What to do with a guild that became available: a guild the bot just
    /// joined is stored; otherwise the store is asked first (`stored_lookup`
    /// is its answer, whether the guild is missing, once there is one) and
    /// only a missing guild is stored.
    pub fn guild_create(&self, is_new: bool, stored_lookup: Option<bool>) -> (r: GuildCreateStep)
        ensures
            r == if is_new {
                GuildCreateStep::Store
            } else {
                match stored_lookup {
                    None => GuildCreateStep::LookUp,
                    Some(true) => GuildCreateStep::Store,
                    Some(false) => GuildCreateStep::Skip,
                }
            },
    {
        if is_new {
            GuildCreateStep::Store
        } else {
            match stored_lookup {
                None => GuildCreateStep::LookUp,
                Some(missing) => if missing {
                    GuildCreateStep::Store
                } else {
                    GuildCreateStep::Skip
                },
            }
        }
    }
}

/// How many members one page asks for.
pub const MEMBER_PAGE_LIMIT: u64 = 1000;

/// Walks the member list of a guild page by page.
pub struct MemberPager {
    /// The id after which the next page starts; none once the walk is over.
    pub after: Option<u64>,
}

impl MemberPager {
    /// A walk that starts before the first member.
    pub fn new() -> (r: MemberPager)
        ensures
            r.after == Some(0u64),
    {
        MemberPager { after: Some(0) }
    }

    /// The id after which the next page of at most `MEMBER_PAGE_LIMIT`
    /// members is fetched; none once the walk is over.
    pub fn next_page(&self) -> (r: Option<u64>)
        ensures
            r == self.after,
    {
        self.after
    }

    /// Takes in the outcome of fetching a page: the member ids in order, or
    /// none when the fetch failed. A failed fetch ends the walk, and its page
    /// is not stored; a fetched page is stored, and the walk goes on after
    /// its last member, or ends when the page is empty.
    pub fn page_fetched(&mut self, page: Option<&Vec<u64>>) -> (store: bool)
        ensures
            store == page is Some,
            final(self).after == match page {
                None => None,
                Some(ids) => if ids.len() == 0 {
                    None
                } else {
                    Some(ids@.last())
                },
            },
    {
        match page {
            None => {
                self.after = None;
                false
            },
            Some(ids) => {
                if ids.len() == 0 {
                    self.after = None;
                } else {
                    self.after = Some(ids[ids.len() - 1]);
                }
                true
            },
        }
    }
}

} // verus!
