//! The replies of the bot's chat commands: `help`, `ping`, and the owner's
//! `kill`, shard `ping` and `sql`.

use vstd::prelude::*;

use crate::text::{decimal, render_i64, render_u128, signed_decimal, trim, trimmed};

verus! {

/// What `help` answers.
pub fn help() -> (r: String)
    ensures
        r@ == "Go to bed"@,
{
    String::from_str("Go to bed")
}

/// What `ping` answers: how many milliseconds passed between the message
/// being sent at `sent_ms` and the bot reading it at `now_ms`.
pub fn ping(now_ms: i64, sent_ms: i64) -> (r: String)
    requires
        i64::MIN <= now_ms - sent_ms <= i64::MAX,
    ensures
        r@ == signed_decimal(now_ms - sent_ms) + "ms"@,
{
    let mut r = render_i64(now_ms - sent_ms);
    r.append("ms");
    r
}

/// What `kill` does when the shard manager is or is not at hand.
pub struct KillReply {
    /// The reply to the command.
    pub reply: String,
    /// Whether every shard is shut down after the reply.
    pub shut_down: bool,
}

/// The answer to `kill`: say goodbye and shut the shards down, or report
/// that the shard manager is missing.
pub fn kill(manager_available: bool) -> (r: KillReply)
    ensures
        r.shut_down == manager_available,
        r.reply@ == if manager_available {
            "Goodbye :("@
        } else {
            "There was a problem getting the shard manager"@
        },
{
    if manager_available {
        KillReply { reply: String::from_str("Goodbye :("), shut_down: true }
    } else {
        KillReply {
            reply: String::from_str("There was a problem getting the shard manager"),
            shut_down: false,
        }
    }
}

/// What the older `kill` command does: it always announces the shutdown,
/// then shuts every shard down, or, without the shard manager, adds a
/// second reply saying so.
pub fn shutdown(manager_available: bool) -> (r: (Vec<String>, bool))
    ensures
        r.1 == manager_available,
        r.0@.map_values(|s: String| s@) == if manager_available {
            seq!["Shutting down!"@]
        } else {
            seq!["Shutting down!"@, "There was a problem getting the shard manager"@]
        },
{
    let mut replies: Vec<String> = Vec::new();
    replies.push(String::from_str("Shutting down!"));
    if !manager_available {
        replies.push(String::from_str("There was a problem getting the shard manager"));
    }
    proof {
        assert(replies@.map_values(|s: String| s@) =~= if manager_available {
            seq!["Shutting down!"@]
        } else {
            seq!["Shutting down!"@, "There was a problem getting the shard manager"@]
        });
    }
    (replies, manager_available)
}

/// Lists every stored guild as one JSON object per row.
pub const GUILDS_AS_JSON: &'static str = "SELECT row_to_json(t, false)::TEXT FROM (SELECT * FROM guilds) t";

/// The shard part of the owner's `ping`: the shard's number, counted from
/// one, and its heartbeat latency when one was measured.
pub fn shard_latency(shard_id: u64, latency_ms: Option<u128>) -> (r: String)
    requires
        shard_id < u64::MAX,
    ensures
        r@ == match latency_ms {
            Some(ms) => "Shard "@ + decimal((shard_id + 1) as nat) + " - "@ + decimal(ms as nat)
                + "ms"@,
            None => "Too soon to measure."@,
        },
{
    match latency_ms {
        Some(ms) => {
            let mut r = String::from_str("Shard ");
            let number = render_u128((shard_id + 1) as u128);
            r.append(number.as_str());
            r.append(" - ");
            let millis = render_u128(ms);
            r.append(millis.as_str());
            r.append("ms");
            r
        },
        None => String::from_str("Too soon to measure."),
    }
}

/// The lines, each followed by a line break.
pub open spec fn lines_of(lines: Seq<Seq<char>>) -> Seq<char>
    decreases lines.len(),
{
    if lines.len() == 0 {
        Seq::empty()
    } else {
        lines_of(lines.drop_last()) + lines.last() + "\n"@
    }
}

/// Rows of JSON shown as a code block.
pub fn json_listing(lines: &Vec<String>) -> (r: String)
    ensures
        r@ == "```json\n"@ + lines_of(lines@.map_values(|l: String| l@)) + "\n```"@,
{
    let ghost views = lines@.map_values(|l: String| l@);
    let mut body = String::new();
    let mut i: usize = 0;
    while i < lines.len()
        invariant
            i <= lines.len(),
            views == lines@.map_values(|l: String| l@),
            body@ == lines_of(views.take(i as int)),
        decreases lines.len() - i,
    {
        body.append(lines[i].as_str());
        body.append("\n");
        assert(views.take(i + 1).drop_last() =~= views.take(i as int));
        i = i + 1;
    }
    assert(views.take(lines.len() as int) =~= views);
    let mut r = String::from_str("```json\n");
    r.append(body.as_str());
    r.append("\n```");
    r
}

/// The code fences that `sql` removes from its argument.
pub const CODE_FENCE_PATTERN: &'static str = "(```(sql)?)";

/// What replacing every match of the regular expression `pattern` in
/// `haystack` with `replacement` gives; nothing when `pattern` does not
/// compile.
pub uninterp spec fn regex_replace_all(
    pattern: Seq<char>,
    haystack: Seq<char>,
    replacement: Seq<char>,
) -> Option<Seq<char>>;

/// Calls `regex::Regex::new(pattern)` and, when it compiles,
/// `Regex::replace_all(haystack, replacement)`. The contract claims only that
/// the outcome, a failure to compile or the replaced text, is determined by
/// the three strings; what the replacement is, is left unsaid.
#[verifier::external_body]
fn replace_all(pattern: &str, haystack: &str, replacement: &str) -> (r: Option<String>)
    ensures
        regex_replace_all(pattern@, haystack@, replacement@) == match r {
            Some(s) => Some(s@),
            None => None,
        },
{
    match regex::Regex::new(pattern) {
        Ok(re) => Some(re.replace_all(haystack, replacement).into_owned()),
        Err(_) => None,
    }
}

/// The statement the owner's `sql` runs for a query with its code fences
/// already removed: the query, trimmed, limited to ten rows, each row shown
/// as JSON.
pub fn limited_query(stripped: &str) -> (r: String)
    ensures
        r@ == "SELECT row_to_json(t, false)::TEXT FROM ("@ + trimmed(stripped@) + " LIMIT 10) t"@,
{
    let query = trim(stripped);
    let mut r = String::from_str("SELECT row_to_json(t, false)::TEXT FROM (");
    r.append(query.as_str());
    r.append(" LIMIT 10) t");
    r
}

/// The statement the owner's `sql` runs for the text after the command:
/// code fences are removed, then `limited_query` applies. Nothing when the
/// fence pattern does not compile.
pub fn sql(message: &str) -> (r: Option<String>)
    ensures
        match regex_replace_all(CODE_FENCE_PATTERN@, message@, ""@) {
            Some(stripped) => r matches Some(q) && q@ == "SELECT row_to_json(t, false)::TEXT FROM ("@
                + trimmed(stripped) + " LIMIT 10) t"@,
            None => r is None,
        },
{
    match replace_all(CODE_FENCE_PATTERN, message, "") {
        Some(stripped) => Some(limited_query(stripped.as_str())),
        None => None,
    }
}

} // verus!
