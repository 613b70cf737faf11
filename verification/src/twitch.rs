//! Automod: every guild message is checked against Twitch's AutoMod, and a
//! blocked message goes through a fixed flow of steps, driven here as a
//! state machine: the author is told in a direct message, the removal is
//! reported to the log channel, repeat offenders are timed out, the author
//! is warned in the guild when the direct message could not be delivered,
//! and the message is deleted.

use vstd::prelude::*;

use crate::text::{decimal, parse_u64, parsed_u64, render_i64, render_u128, signed_decimal};

verus! {

/// Where AutoMod is asked about a message.
pub const ENFORCEMENT_STATUS_URL: &'static str = "https://api.twitch.tv/helix/moderation/enforcements/status";

/// The Twitch channel whose AutoMod settings apply when none is configured.
pub const DEFAULT_BROADCASTER_ID: &'static str = "51684790";

/// How many recent strikes, counted before this one, earn a timeout.
pub const STRIKE_LIMIT: i64 = 2;

/// How many days a timeout lasts.
pub const TIMEOUT_DAYS: i64 = 7;

/// How long the warning posted in the guild stays up, in milliseconds.
pub const WARNING_LIFETIME_MS: u64 = 15000;

/// The embed colour of a removal report (teal).
pub const REMOVAL_COLOUR: u32 = 0x1ABC9C;

/// The embed colour of a timeout report (red).
pub const TIMEOUT_COLOUR: u32 = 0xE74C3C;

/// The warning posted in the guild when the author cannot be reached.
pub const AUTOMOD_GUILD_MESSAGE: &'static str = "**Your message was blocked by Automod. Please watch what you say.**
_If you had DM's turned on, I would have sent your message back to you to fix your mistake._";

/// The request that asks AutoMod about one message.
pub struct EnforcementRequest {
    /// The `broadcaster_id` query parameter.
    pub broadcaster_id: String,
    /// The `Client-ID` header.
    pub client_id: String,
    /// The `Authorization` header.
    pub authorization: String,
    /// The `msg_id` of the single entry of the JSON body.
    pub msg_id: String,
    /// The `user_id` of the single entry of the JSON body.
    pub user_id: String,
    /// The `msg_text` of the single entry of the JSON body.
    pub msg_text: String,
}

/// The request for message `message_id` with text `content`, given the
/// configured client id, broadcaster (if any) and bearer token.
pub fn enforcement_request(
    message_id: u64,
    content: &str,
    client_id: &str,
    broadcaster_id: Option<&str>,
    bearer_token: &str,
) -> (r: EnforcementRequest)
    ensures
        r.broadcaster_id@ == match broadcaster_id {
            Some(b) => b@,
            None => DEFAULT_BROADCASTER_ID@,
        },
        r.client_id@ == client_id@,
        r.authorization@ == "Bearer "@ + bearer_token@,
        r.msg_id@ == decimal(message_id as nat),
        r.user_id@ == "1"@,
        r.msg_text@ == content@,
{
    let broadcaster = match broadcaster_id {
        Some(b) => String::from_str(b),
        None => String::from_str(DEFAULT_BROADCASTER_ID),
    };
    let mut authorization = String::from_str("Bearer ");
    authorization.append(bearer_token);
    EnforcementRequest {
        broadcaster_id: broadcaster,
        client_id: String::from_str(client_id),
        authorization,
        msg_id: render_u128(message_id as u128),
        user_id: String::from_str("1"),
        msg_text: String::from_str(content),
    }
}

/// The Unix second of chrono's earliest time, `DateTime::<Utc>::MIN_UTC`.
pub const EARLIEST_SECOND: i64 = -8334601228800;

/// The Unix second of chrono's latest time, `DateTime::<Utc>::MAX_UTC`.
pub const LATEST_SECOND: i64 = 8210266876799;

/// Whether chrono can represent Unix second `secs`.
pub open spec fn representable(secs: int) -> bool {
    EARLIEST_SECOND <= secs <= LATEST_SECOND
}

/// What chrono gives for the Unix second `days` days after Unix second
/// `secs`: that second when it can represent both times, nothing otherwise.
pub open spec fn chrono_days_later(secs: i64, days: i64) -> Option<i64> {
    let end = secs + days * 86400;
    if representable(secs as int) && representable(end) {
        Some(end as i64)
    } else {
        None
    }
}

/// Calls chrono's `DateTime::from_timestamp(secs, 0)`, `TimeDelta::try_days`,
/// `DateTime::checked_add_signed` and `DateTime::timestamp`. The contract
/// claims that a time comes back exactly when chrono can represent both
/// `secs` and the second `days` whole days later, and that it is that second.
#[verifier::external_body]
fn add_days(secs: i64, days: i64) -> (r: Option<i64>)
    ensures
        r == chrono_days_later(secs, days),
{
    let start = match chrono::DateTime::from_timestamp(secs, 0) {
        Some(start) => start,
        None => return None,
    };
    let delta = match chrono::TimeDelta::try_days(days) {
        Some(delta) => delta,
        None => return None,
    };
    match start.checked_add_signed(delta) {
        Some(end) => Some(end.timestamp()),
        None => None,
    }
}

/// The facts about a checked message that are known before AutoMod answers.
pub struct AutomodMessage {
    pub message_id: u64,
    pub channel_id: u64,
    pub author_id: u64,
    pub author_name: String,
    pub author_discriminator: u16,
    /// The author's avatar, or the default avatar, as a URL.
    pub author_icon_url: String,
    /// The configured log channel, as written in the configuration.
    pub log_channel: Option<String>,
}

impl AutomodMessage {
    /// Whether the configured log channel, if there is one, is a channel id.
    pub open spec fn log_channel_parses(&self) -> bool {
        self.log_channel is Some ==> parsed_u64(self.log_channel->Some_0@) is Some
    }

    /// Tests `log_channel_parses`.
    pub fn has_valid_log_channel(&self) -> (r: bool)
        ensures
            r == self.log_channel_parses(),
    {
        match &self.log_channel {
            Some(raw) => parse_u64(raw.as_str()).is_some(),
            None => true,
        }
    }
}

/// Where the flow of a checked message stands: what it waits for.
#[derive(PartialEq, Eq, Structural, Clone, Copy, Debug)]
pub enum Stage {
    /// AutoMod's verdict.
    Verdict,
    /// The guild's name and the message's text with mentions made safe.
    Details,
    /// Whether the direct message to the author was delivered.
    DirectMessage,
    /// The report of the removal to the log channel.
    RemovalReport,
    /// The author's recent strike count.
    Strikes,
    /// Whether the timeout was applied.
    Timeout,
    /// The report of the timeout to the log channel.
    TimeoutReport,
    /// The warning in the guild.
    GuildWarning,
    /// The deletion of the message.
    Deletion,
    /// Nothing: the flow is over.
    Done,
    /// Nothing: the flow cannot go on (the end of the timeout cannot be
    /// represented).
    Halted,
}

/// The state of the flow of one checked message.
pub struct AutomodState {
    pub stage: Stage,
    pub guild_name: String,
    pub safe_content: String,
    pub dm_delivered: bool,
    /// Unix second at which the timeout ends, once one is applied.
    pub timeout_until: i64,
}

/// What happened since the last step.
pub enum AutomodEvent {
    Verdict { permitted: bool },
    Details { guild_name: String, safe_content: String },
    DirectMessage { delivered: bool },
    Reported,
    /// The strike count, read at Unix second `now`.
    Strikes { count: i64, now: i64 },
    TimedOut { applied: bool },
    Warned,
    Deleted,
}

/// What to do next.
pub enum AutomodAction {
    /// Read the guild's name and the message's text with mentions made safe.
    GatherDetails,
    /// Send `text` to the author in a direct message.
    DirectMessage { text: String },
    /// Post an embed in the log channel.
    Report {
        channel: u64,
        colour: u32,
        title: String,
        description: String,
        footer: String,
        icon_url: String,
    },
    /// Count the author's blocked messages of the last fifteen minutes.
    CountStrikes,
    /// Time the author out until Unix second `until`.
    TimeOut { until: i64 },
    /// Reply to the message with `text`, and delete the reply after
    /// `lifetime_ms` milliseconds.
    WarnInGuild { text: String, lifetime_ms: u64 },
    /// Delete the message.
    Delete,
    /// The check is over; the message was `permitted` or not.
    Finish { permitted: bool },
    /// Stop: the flow cannot go on.
    Halt,
}

/// The direct message sent to the author of a blocked message.
pub open spec fn dm_text(guild_name: Seq<char>, channel_id: u64, safe_content: Seq<char>) -> Seq<char> {
    "**Your message in "@ + guild_name + " (<#"@ + decimal(channel_id as nat)
        + ">) was blocked by Automod. Please watch what you say next time.**\n```"@ + safe_content
        + "```"@
}

/// The description of the removal report.
pub open spec fn removal_text(channel_id: u64, message_id: u64, safe_content: Seq<char>) -> Seq<char> {
    "**Channel**: <#"@ + decimal(channel_id as nat) + ">\n**Message ID**: "@ + decimal(
        message_id as nat,
    ) + "\n```"@ + safe_content + "```"@
}

/// The description of the timeout report.
pub open spec fn timeout_text(until: i64) -> Seq<char> {
    "**3** automod infractions in **15 minutes**.\n**Cleared**: <t:"@ + signed_decimal(until as int)
        + ":R>"@
}

/// The footer of both reports: who wrote the message.
pub open spec fn footer_text(name: Seq<char>, discriminator: u16, id: u64) -> Seq<char> {
    name + "#"@ + decimal(discriminator as nat) + " - "@ + decimal(id as nat)
}

/// Which event each stage waits for.
pub open spec fn expects(stage: Stage, event: AutomodEvent) -> bool {
    match stage {
        Stage::Verdict => event is Verdict,
        Stage::Details => event is Details,
        Stage::DirectMessage => event is DirectMessage,
        Stage::RemovalReport => event is Reported,
        Stage::Strikes => event is Strikes,
        Stage::Timeout => event is TimedOut,
        Stage::TimeoutReport => event is Reported,
        Stage::GuildWarning => event is Warned,
        Stage::Deletion => event is Deleted,
        Stage::Done => false,
        Stage::Halted => false,
    }
}

/// How far along the flow a stage is.
pub open spec fn rank(stage: Stage) -> int {
    match stage {
        Stage::Verdict => 0,
        Stage::Details => 1,
        Stage::DirectMessage => 2,
        Stage::RemovalReport => 3,
        Stage::Strikes => 4,
        Stage::Timeout => 5,
        Stage::TimeoutReport => 6,
        Stage::GuildWarning => 7,
        Stage::Deletion => 8,
        Stage::Done => 9,
        Stage::Halted => 9,
    }
}

/// The end of the flow once the strikes are dealt with: warn in the guild
/// when the direct message was not delivered, then delete.
pub open spec fn closing(dm_delivered: bool, stage: Stage, action: AutomodAction) -> bool {
    if dm_delivered {
        stage == Stage::Deletion && action is Delete
    } else {
        &&& stage == Stage::GuildWarning
        &&& action matches AutomodAction::WarnInGuild { text, lifetime_ms }
        &&& text@ == AUTOMOD_GUILD_MESSAGE@
        &&& lifetime_ms == WARNING_LIFETIME_MS
    }
}

/// A report to the configured log channel, or a halt when the configured
/// value is not a channel id.
pub open spec fn report(
    m: AutomodMessage,
    colour: u32,
    title: Seq<char>,
    description: Seq<char>,
    next: Stage,
    stage: Stage,
    action: AutomodAction,
) -> bool {
    match parsed_u64(m.log_channel->Some_0@) {
        Some(channel) => {
            &&& stage == next
            &&& action matches AutomodAction::Report { channel: c, colour: k, title: t, description: d, footer: f, icon_url: u }
            &&& c == channel
            &&& k == colour
            &&& t@ == title
            &&& d@ == description
            &&& f@ == footer_text(m.author_name@, m.author_discriminator, m.author_id)
            &&& u@ == m.author_icon_url@
        },
        None => stage == Stage::Halted && action is Halt,
    }
}

/// A timeout until the given time, or a halt when there is none.
pub open spec fn timeout_outcome(until: Option<i64>, stage: Stage, until_field: i64, a: AutomodAction, before: i64) -> bool {
    match until {
        Some(u) => {
            &&& stage == Stage::Timeout
            &&& a == (AutomodAction::TimeOut { until: u })
            &&& until_field == u
        },
        None => stage == Stage::Halted && a is Halt && until_field == before,
    }
}

/// One step of the flow: the state it moves to and the action it takes.
pub open spec fn step_spec(
    m: AutomodMessage,
    s: AutomodState,
    e: AutomodEvent,
    t: AutomodState,
    a: AutomodAction,
) -> bool {
    let keeps_details = t.guild_name == s.guild_name && t.safe_content == s.safe_content;
    let keeps_delivery = t.dm_delivered == s.dm_delivered;
    let keeps_timeout = t.timeout_until == s.timeout_until;
    match e {
        AutomodEvent::Verdict { permitted } => {
            &&& keeps_details && keeps_delivery && keeps_timeout
            &&& if permitted {
                t.stage == Stage::Done && a == (AutomodAction::Finish { permitted: true })
            } else {
                t.stage == Stage::Details && a is GatherDetails
            }
        },
        AutomodEvent::Details { guild_name, safe_content } => {
            &&& keeps_delivery && keeps_timeout
            &&& t.stage == Stage::DirectMessage
            &&& t.guild_name == guild_name
            &&& t.safe_content == safe_content
            &&& a matches AutomodAction::DirectMessage { text }
            &&& text@ == dm_text(guild_name@, m.channel_id, safe_content@)
        },
        AutomodEvent::DirectMessage { delivered } => {
            &&& keeps_details && keeps_timeout
            &&& t.dm_delivered == delivered
            &&& if m.log_channel is Some {
                report(
                    m,
                    REMOVAL_COLOUR,
                    "User Message Removed"@,
                    removal_text(m.channel_id, m.message_id, s.safe_content@),
                    Stage::RemovalReport,
                    t.stage,
                    a,
                )
            } else {
                t.stage == Stage::Strikes && a is CountStrikes
            }
        },
        AutomodEvent::Strikes { count, now } => {
            &&& keeps_details && keeps_delivery
            &&& if count >= STRIKE_LIMIT {
                &&& timeout_outcome(
                    chrono_days_later(now, TIMEOUT_DAYS),
                    t.stage,
                    t.timeout_until,
                    a,
                    s.timeout_until,
                )
                &&& t.stage == Stage::Timeout ==> t.timeout_until == now + TIMEOUT_DAYS * 86400
            } else {
                keeps_timeout && closing(s.dm_delivered, t.stage, a)
            }
        },
        AutomodEvent::TimedOut { applied } => {
            &&& keeps_details && keeps_delivery && keeps_timeout
            &&& if applied && m.log_channel is Some {
                report(
                    m,
                    TIMEOUT_COLOUR,
                    "User Timed Out"@,
                    timeout_text(s.timeout_until),
                    Stage::TimeoutReport,
                    t.stage,
                    a,
                )
            } else {
                closing(s.dm_delivered, t.stage, a)
            }
        },
        AutomodEvent::Reported => {
            &&& keeps_details && keeps_delivery && keeps_timeout
            &&& if s.stage == Stage::RemovalReport {
                t.stage == Stage::Strikes && a is CountStrikes
            } else {
                closing(s.dm_delivered, t.stage, a)
            }
        },
        AutomodEvent::Warned => {
            &&& keeps_details && keeps_delivery && keeps_timeout
            &&& t.stage == Stage::Deletion
            &&& a is Delete
        },
        AutomodEvent::Deleted => {
            &&& keeps_details && keeps_delivery && keeps_timeout
            &&& t.stage == Stage::Done
            &&& a == (AutomodAction::Finish { permitted: false })
        },
    }
}

impl AutomodState {
    /// The state of a message that was just sent for checking.
    pub fn new() -> (r: AutomodState)
        ensures
            r.stage == Stage::Verdict,
            r.guild_name@ == Seq::<char>::empty(),
            r.safe_content@ == Seq::<char>::empty(),
            !r.dm_delivered,
            r.timeout_until == 0,
    {
        AutomodState {
            stage: Stage::Verdict,
            guild_name: String::new(),
            safe_content: String::new(),
            dm_delivered: false,
            timeout_until: 0,
        }
    }
}

fn closing_step(s: AutomodState) -> (r: (AutomodState, AutomodAction))
    ensures
        r.0.guild_name == s.guild_name,
        r.0.safe_content == s.safe_content,
        r.0.dm_delivered == s.dm_delivered,
        r.0.timeout_until == s.timeout_until,
        closing(s.dm_delivered, r.0.stage, r.1),
{
    if s.dm_delivered {
        (AutomodState { stage: Stage::Deletion, ..s }, AutomodAction::Delete)
    } else {
        (
            AutomodState { stage: Stage::GuildWarning, ..s },
            AutomodAction::WarnInGuild {
                text: String::from_str(AUTOMOD_GUILD_MESSAGE),
                lifetime_ms: WARNING_LIFETIME_MS,
            },
        )
    }
}

/// The step taken on a repeat offence, given the end of the timeout as
/// chrono computes it: a timeout until then, or a halt when there is none.
pub fn timeout_step(s: AutomodState, until: Option<i64>) -> (r: (AutomodState, AutomodAction))
    ensures
        r.0.guild_name == s.guild_name,
        r.0.safe_content == s.safe_content,
        r.0.dm_delivered == s.dm_delivered,
        timeout_outcome(until, r.0.stage, r.0.timeout_until, r.1, s.timeout_until),
{
    match until {
        Some(until) => (
            AutomodState { stage: Stage::Timeout, timeout_until: until, ..s },
            AutomodAction::TimeOut { until },
        ),
        None => (AutomodState { stage: Stage::Halted, ..s }, AutomodAction::Halt),
    }
}

fn footer(m: &AutomodMessage) -> (r: String)
    ensures
        r@ == footer_text(m.author_name@, m.author_discriminator, m.author_id),
{
    let mut r = String::from_str(m.author_name.as_str());
    r.append("#");
    let d = render_u128(m.author_discriminator as u128);
    r.append(d.as_str());
    r.append(" - ");
    let id = render_u128(m.author_id as u128);
    r.append(id.as_str());
    r
}

fn report_step(
    m: &AutomodMessage,
    s: AutomodState,
    colour: u32,
    title: &str,
    description: String,
    next: Stage,
) -> (r: (AutomodState, AutomodAction))
    requires
        m.log_channel is Some,
    ensures
        r.0.guild_name == s.guild_name,
        r.0.safe_content == s.safe_content,
        r.0.dm_delivered == s.dm_delivered,
        r.0.timeout_until == s.timeout_until,
        report(*m, colour, title@, description@, next, r.0.stage, r.1),
{
    let raw = match &m.log_channel {
        Some(raw) => raw,
        None => {
            return (AutomodState { stage: Stage::Halted, ..s }, AutomodAction::Halt);
        },
    };
    match parse_u64(raw.as_str()) {
        Some(channel) => (
            AutomodState { stage: next, ..s },
            AutomodAction::Report {
                channel,
                colour,
                title: String::from_str(title),
                description,
                footer: footer(m),
                icon_url: m.author_icon_url.clone(),
            },
        ),
        None => (AutomodState { stage: Stage::Halted, ..s }, AutomodAction::Halt),
    }
}

/// Takes one step of the flow of checked message `m`: from state `s` on
/// event `e` to the returned state, with the returned action. Each step
/// moves the flow further along, so the flow ends. The configured log
/// channel, if any, must be a channel id on the two steps that may report to
/// it.
pub fn automod(m: &AutomodMessage, s: AutomodState, e: AutomodEvent) -> (r: (
    AutomodState,
    AutomodAction,
))
    requires
        expects(s.stage, e),
        e is DirectMessage || e == (AutomodEvent::TimedOut { applied: true })
            ==> m.log_channel_parses(),
    ensures
        step_spec(*m, s, e, r.0, r.1),
        rank(s.stage) < rank(r.0.stage),
{
    match e {
        AutomodEvent::Verdict { permitted } => {
            if permitted {
                (AutomodState { stage: Stage::Done, ..s }, AutomodAction::Finish { permitted: true })
            } else {
                (AutomodState { stage: Stage::Details, ..s }, AutomodAction::GatherDetails)
            }
        },
        AutomodEvent::Details { guild_name, safe_content } => {
            let mut text = String::from_str("**Your message in ");
            text.append(guild_name.as_str());
            text.append(" (<#");
            let channel = render_u128(m.channel_id as u128);
            text.append(channel.as_str());
            text.append(
                ">) was blocked by Automod. Please watch what you say next time.**\n```",
            );
            text.append(safe_content.as_str());
            text.append("```");
            (
                AutomodState { stage: Stage::DirectMessage, guild_name, safe_content, ..s },
                AutomodAction::DirectMessage { text },
            )
        },
        AutomodEvent::DirectMessage { delivered } => {
            let s = AutomodState { dm_delivered: delivered, ..s };
            if m.log_channel.is_some() {
                let mut description = String::from_str("**Channel**: <#");
                let channel = render_u128(m.channel_id as u128);
                description.append(channel.as_str());
                description.append(">\n**Message ID**: ");
                let id = render_u128(m.message_id as u128);
                description.append(id.as_str());
                description.append("\n```");
                description.append(s.safe_content.as_str());
                description.append("```");
                report_step(
                    m,
                    s,
                    REMOVAL_COLOUR,
                    "User Message Removed",
                    description,
                    Stage::RemovalReport,
                )
            } else {
                (AutomodState { stage: Stage::Strikes, ..s }, AutomodAction::CountStrikes)
            }
        },
        AutomodEvent::Strikes { count, now } => {
            if count >= STRIKE_LIMIT {
                timeout_step(s, add_days(now, TIMEOUT_DAYS))
            } else {
                closing_step(s)
            }
        },
        AutomodEvent::TimedOut { applied } => {
            if applied && m.log_channel.is_some() {
                let mut description = String::from_str(
                    "**3** automod infractions in **15 minutes**.\n**Cleared**: <t:",
                );
                let until = render_i64(s.timeout_until);
                description.append(until.as_str());
                description.append(":R>");
                report_step(m, s, TIMEOUT_COLOUR, "User Timed Out", description, Stage::TimeoutReport)
            } else {
                closing_step(s)
            }
        },
        AutomodEvent::Reported => {
            if s.stage == Stage::RemovalReport {
                (AutomodState { stage: Stage::Strikes, ..s }, AutomodAction::CountStrikes)
            } else {
                closing_step(s)
            }
        },
        AutomodEvent::Warned => (AutomodState { stage: Stage::Deletion, ..s }, AutomodAction::Delete),
        AutomodEvent::Deleted => (
            AutomodState { stage: Stage::Done, ..s },
            AutomodAction::Finish { permitted: false },
        ),
    }
}


/// A run of the flow: `states[i]` goes to `states[i + 1]` on `events[i]`,
/// taking `actions[i]`, each event being the one its stage waits for.
pub open spec fn valid_run(
    m: AutomodMessage,
    states: Seq<AutomodState>,
    events: Seq<AutomodEvent>,
    actions: Seq<AutomodAction>,
) -> bool {
    &&& states.len() == events.len() + 1
    &&& actions.len() == events.len()
    &&& forall|i: int|
        0 <= i < events.len() ==> expects(states[i].stage, #[trigger] events[i]) && step_spec(
            m,
            states[i],
            events[i],
            states[i + 1],
            actions[i],
        )
}

/// Every step moves the flow further along.
pub proof fn step_advances(
    m: AutomodMessage,
    s: AutomodState,
    e: AutomodEvent,
    t: AutomodState,
    a: AutomodAction,
)
    requires
        expects(s.stage, e),
        step_spec(m, s, e, t, a),
    ensures
        rank(s.stage) < rank(t.stage),
{
}

/// The flow enters the deletion stage only by asking for the deletion.
proof fn entering_deletion_deletes(
    m: AutomodMessage,
    s: AutomodState,
    e: AutomodEvent,
    t: AutomodState,
    a: AutomodAction,
)
    requires
        expects(s.stage, e),
        step_spec(m, s, e, t, a),
        s.stage != Stage::Deletion,
        t.stage == Stage::Deletion,
    ensures
        a is Delete,
{
}

proof fn rank_grows_between(
    m: AutomodMessage,
    states: Seq<AutomodState>,
    events: Seq<AutomodEvent>,
    actions: Seq<AutomodAction>,
    j: int,
    i: int,
)
    requires
        valid_run(m, states, events, actions),
        0 <= j <= i < states.len(),
    ensures
        rank(states[j].stage) + (i - j) <= rank(states[i].stage),
    decreases i - j,
{
    if i > j {
        rank_grows_between(m, states, events, actions, j, i - 1);
        assert(expects(states[i - 1].stage, events[i - 1]));
        step_advances(m, states[i - 1], events[i - 1], states[i], actions[i - 1]);
    }
}

/// Law: the flow of a message ends: no run is longer than nine steps.
pub proof fn runs_end(
    m: AutomodMessage,
    states: Seq<AutomodState>,
    events: Seq<AutomodEvent>,
    actions: Seq<AutomodAction>,
)
    requires
        valid_run(m, states, events, actions),
    ensures
        events.len() <= 9,
{
    rank_grows_between(m, states, events, actions, 0, events.len() as int);
}

/// Law: a message AutoMod permits is left alone: its flow takes the one
/// step that finishes it as permitted.
pub proof fn permitted_message_is_left_alone(
    m: AutomodMessage,
    states: Seq<AutomodState>,
    events: Seq<AutomodEvent>,
    actions: Seq<AutomodAction>,
)
    requires
        valid_run(m, states, events, actions),
        states[0].stage == Stage::Verdict,
        events.len() > 0,
        events[0] == (AutomodEvent::Verdict { permitted: true }),
    ensures
        events.len() == 1,
        actions[0] == (AutomodAction::Finish { permitted: true }),
{
    assert(expects(states[0].stage, events[0]));
    if events.len() > 1 {
        assert(expects(states[1].stage, events[1]));
    }
}

proof fn find_entry(
    m: AutomodMessage,
    states: Seq<AutomodState>,
    events: Seq<AutomodEvent>,
    actions: Seq<AutomodAction>,
    n: int,
) -> (k: int)
    requires
        valid_run(m, states, events, actions),
        0 < n < states.len(),
        states[0].stage != Stage::Deletion,
        states[n].stage == Stage::Deletion,
    ensures
        0 <= k < n,
        actions[k] is Delete,
    decreases n,
{
    if states[n - 1].stage != Stage::Deletion {
        assert(expects(states[n - 1].stage, events[n - 1]));
        entering_deletion_deletes(m, states[n - 1], events[n - 1], states[n], actions[n - 1]);
        n - 1
    } else {
        find_entry(m, states, events, actions, n - 1)
    }
}

/// Law: a blocked message is deleted: when the flow of a message AutoMod
/// blocked is over, the deletion was asked for, and the flow reports the
/// message as blocked.
pub proof fn blocked_message_is_deleted(
    m: AutomodMessage,
    states: Seq<AutomodState>,
    events: Seq<AutomodEvent>,
    actions: Seq<AutomodAction>,
)
    requires
        valid_run(m, states, events, actions),
        states[0].stage == Stage::Verdict,
        events.len() > 0,
        events[0] == (AutomodEvent::Verdict { permitted: false }),
        states.last().stage == Stage::Done,
    ensures
        exists|k: int| 0 <= k < actions.len() && actions[k] is Delete,
        actions.last() == (AutomodAction::Finish { permitted: false }),
{
    let n = events.len() as int;
    assert(expects(states[0].stage, events[0]));
    assert(states[1].stage == Stage::Details);
    assert(expects(states[n - 1].stage, events[n - 1]));
    assert(states[n] == states.last());
    // The last step enters Done; only the verdict and the deletion do that,
    // and the verdict was the first step, which went to Details.
    assert(events[n - 1] is Deleted) by {
        rank_grows_between(m, states, events, actions, 0, n - 1);
        assert(step_spec(m, states[n - 1], events[n - 1], states[n], actions[n - 1]));
        if n - 1 == 0 {
            assert(states[1].stage == Stage::Details);
        }
    }
    assert(states[n - 1].stage == Stage::Deletion);
    let k = find_entry(m, states, events, actions, n - 1);
    assert(actions[k] is Delete);
}


proof fn delivery_is_kept(
    m: AutomodMessage,
    states: Seq<AutomodState>,
    events: Seq<AutomodEvent>,
    actions: Seq<AutomodAction>,
    j: int,
    i: int,
    delivered: bool,
)
    requires
        valid_run(m, states, events, actions),
        0 <= j < i < states.len(),
        events[j] == (AutomodEvent::DirectMessage { delivered }),
    ensures
        states[i].dm_delivered == delivered,
    decreases i - j,
{
    assert(expects(states[j].stage, events[j]));
    if i > j + 1 {
        delivery_is_kept(m, states, events, actions, j, i - 1, delivered);
        assert(expects(states[i - 1].stage, events[i - 1]));
        if events[i - 1] is DirectMessage {
            rank_grows_between(m, states, events, actions, j, i - 1);
        }
    }
}

/// Law: the author is warned in the guild only when the direct message to
/// them was not delivered.
pub proof fn guild_warning_only_when_dm_failed(
    m: AutomodMessage,
    states: Seq<AutomodState>,
    events: Seq<AutomodEvent>,
    actions: Seq<AutomodAction>,
    j: int,
    k: int,
)
    requires
        valid_run(m, states, events, actions),
        0 <= j < k < events.len(),
        events[j] is DirectMessage,
        actions[k] is WarnInGuild,
    ensures
        events[j] == (AutomodEvent::DirectMessage { delivered: false }),
{
    let delivered = events[j]->DirectMessage_delivered;
    assert(events[j] == (AutomodEvent::DirectMessage { delivered }));
    delivery_is_kept(m, states, events, actions, j, k, delivered);
    assert(expects(states[k].stage, events[k]));
    assert(step_spec(m, states[k], events[k], states[k + 1], actions[k]));
}


/// Law: the verdict decides at once: a permitted message finishes the flow
/// as permitted, a blocked one goes on to gather the details for the author.
pub proof fn verdict_step(
    m: AutomodMessage,
    s: AutomodState,
    permitted: bool,
    t: AutomodState,
    a: AutomodAction,
)
    requires
        expects(s.stage, AutomodEvent::Verdict { permitted }),
        step_spec(m, s, AutomodEvent::Verdict { permitted }, t, a),
    ensures
        permitted ==> t.stage == Stage::Done && a == (AutomodAction::Finish { permitted: true }),
        !permitted ==> t.stage == Stage::Details && a is GatherDetails,
{
}

/// Law: once the details are known, the author is sent a direct message
/// naming the guild and the channel and quoting the message.
pub proof fn details_step(
    m: AutomodMessage,
    s: AutomodState,
    guild_name: String,
    safe_content: String,
    t: AutomodState,
    a: AutomodAction,
)
    requires
        expects(s.stage, AutomodEvent::Details { guild_name, safe_content }),
        step_spec(m, s, AutomodEvent::Details { guild_name, safe_content }, t, a),
    ensures
        t.stage == Stage::DirectMessage,
        a matches AutomodAction::DirectMessage { text } && text@ == "**Your message in "@
            + guild_name@ + " (<#"@ + decimal(m.channel_id as nat)
            + ">) was blocked by Automod. Please watch what you say next time.**\n```"@
            + safe_content@ + "```"@,
{
}

/// Law: after the direct message, whether or not it was delivered, the
/// removal is reported to the configured log channel with the channel, the
/// message id and the text; without a log channel the strikes are counted.
pub proof fn removal_is_reported(
    m: AutomodMessage,
    s: AutomodState,
    delivered: bool,
    t: AutomodState,
    a: AutomodAction,
)
    requires
        expects(s.stage, AutomodEvent::DirectMessage { delivered }),
        step_spec(m, s, AutomodEvent::DirectMessage { delivered }, t, a),
        m.log_channel_parses(),
    ensures
        t.dm_delivered == delivered,
        m.log_channel is None ==> t.stage == Stage::Strikes && a is CountStrikes,
        m.log_channel is Some ==> {
            &&& t.stage == Stage::RemovalReport
            &&& a matches AutomodAction::Report { channel, colour, title, description, footer, icon_url }
            &&& Some(channel) == parsed_u64(m.log_channel->Some_0@)
            &&& colour == 0x1ABC9Cu32
            &&& title@ == "User Message Removed"@
            &&& description@ == "**Channel**: <#"@ + decimal(m.channel_id as nat)
                + ">\n**Message ID**: "@ + decimal(m.message_id as nat) + "\n```"@
                + s.safe_content@ + "```"@
            &&& footer@ == m.author_name@ + "#"@ + decimal(m.author_discriminator as nat)
                + " - "@ + decimal(m.author_id as nat)
            &&& icon_url@ == m.author_icon_url@
        },
{
}

/// Law: once the removal report is sent, the strikes are counted.
pub proof fn removal_report_leads_to_strikes(
    m: AutomodMessage,
    s: AutomodState,
    t: AutomodState,
    a: AutomodAction,
)
    requires
        s.stage == Stage::RemovalReport,
        step_spec(m, s, AutomodEvent::Reported, t, a),
    ensures
        t.stage == Stage::Strikes,
        a is CountStrikes,
{
}

/// Law: with fewer than two earlier strikes there is no timeout: the message
/// is deleted when the author got the direct message, and otherwise the
/// author is first warned in the guild for fifteen seconds.
pub proof fn first_offence_is_not_timed_out(
    m: AutomodMessage,
    s: AutomodState,
    count: i64,
    now: i64,
    t: AutomodState,
    a: AutomodAction,
)
    requires
        expects(s.stage, AutomodEvent::Strikes { count, now }),
        step_spec(m, s, AutomodEvent::Strikes { count, now }, t, a),
        count < 2,
    ensures
        t.dm_delivered == s.dm_delivered,
        s.dm_delivered ==> t.stage == Stage::Deletion && a is Delete,
        !s.dm_delivered ==> {
            &&& t.stage == Stage::GuildWarning
            &&& a matches AutomodAction::WarnInGuild { text, lifetime_ms }
            &&& text@ == AUTOMOD_GUILD_MESSAGE@
            &&& lifetime_ms == 15000
        },
{
}

/// Law: a repeat offender (two or more earlier strikes) is timed out for
/// seven days from now, whatever became of the direct message, whenever
/// chrono can represent both times.
pub proof fn repeat_offender_is_timed_out(
    m: AutomodMessage,
    s: AutomodState,
    count: i64,
    now: i64,
    t: AutomodState,
    a: AutomodAction,
)
    requires
        expects(s.stage, AutomodEvent::Strikes { count, now }),
        step_spec(m, s, AutomodEvent::Strikes { count, now }, t, a),
        count >= 2,
        -8334601228800 <= now,
        now + 7 * 86400 <= 8210266876799,
    ensures
        t.stage == Stage::Timeout,
        t.timeout_until == now + 604800,
        a == (AutomodAction::TimeOut { until: (now + 604800) as i64 }),
        t.dm_delivered == s.dm_delivered,
{
}

/// Law: an applied timeout is reported to the configured log channel with
/// its end; a failed timeout, or one without a log channel, goes on to the
/// warning (when the direct message failed) or to the deletion.
pub proof fn timeout_is_reported(
    m: AutomodMessage,
    s: AutomodState,
    applied: bool,
    t: AutomodState,
    a: AutomodAction,
)
    requires
        expects(s.stage, AutomodEvent::TimedOut { applied }),
        step_spec(m, s, AutomodEvent::TimedOut { applied }, t, a),
        applied ==> m.log_channel_parses(),
    ensures
        applied && m.log_channel is Some ==> {
            &&& t.stage == Stage::TimeoutReport
            &&& a matches AutomodAction::Report { channel, colour, title, description, footer, icon_url }
            &&& Some(channel) == parsed_u64(m.log_channel->Some_0@)
            &&& colour == 0xE74C3Cu32
            &&& title@ == "User Timed Out"@
            &&& description@ == "**3** automod infractions in **15 minutes**.\n**Cleared**: <t:"@
                + signed_decimal(s.timeout_until as int) + ":R>"@
            &&& footer@ == m.author_name@ + "#"@ + decimal(m.author_discriminator as nat)
                + " - "@ + decimal(m.author_id as nat)
            &&& icon_url@ == m.author_icon_url@
        },
        !(applied && m.log_channel is Some) ==> {
            &&& s.dm_delivered ==> t.stage == Stage::Deletion && a is Delete
            &&& !s.dm_delivered ==> {
                &&& t.stage == Stage::GuildWarning
                &&& a matches AutomodAction::WarnInGuild { text, lifetime_ms }
                &&& text@ == AUTOMOD_GUILD_MESSAGE@
                &&& lifetime_ms == 15000
            }
        },
{
}

/// Law: after the timeout report the author is warned in the guild when
/// the direct message failed, and the message is deleted otherwise.
pub proof fn timeout_report_leads_to_warning_or_deletion(
    m: AutomodMessage,
    s: AutomodState,
    t: AutomodState,
    a: AutomodAction,
)
    requires
        s.stage == Stage::TimeoutReport,
        step_spec(m, s, AutomodEvent::Reported, t, a),
    ensures
        s.dm_delivered ==> t.stage == Stage::Deletion && a is Delete,
        !s.dm_delivered ==> {
            &&& t.stage == Stage::GuildWarning
            &&& a matches AutomodAction::WarnInGuild { text, lifetime_ms }
            &&& text@ == AUTOMOD_GUILD_MESSAGE@
            &&& lifetime_ms == 15000
        },
{
}

/// Law: the warning is followed by the deletion, and the deletion ends the
/// flow with the message blocked.
pub proof fn warning_and_deletion_steps(
    m: AutomodMessage,
    s: AutomodState,
    e: AutomodEvent,
    t: AutomodState,
    a: AutomodAction,
)
    requires
        expects(s.stage, e),
        step_spec(m, s, e, t, a),
    ensures
        e is Warned ==> t.stage == Stage::Deletion && a is Delete,
        e is Deleted ==> t.stage == Stage::Done && a == (AutomodAction::Finish { permitted: false }),
{
}

/// Law: apart from an unrepresentable timeout end, no step halts once the
/// log channel, where one is used, is a channel id.
pub proof fn halts_only_on_unrepresentable_timeout(
    m: AutomodMessage,
    s: AutomodState,
    e: AutomodEvent,
    t: AutomodState,
    a: AutomodAction,
)
    requires
        expects(s.stage, e),
        step_spec(m, s, e, t, a),
        m.log_channel_parses(),
        a is Halt || t.stage == Stage::Halted,
    ensures
        e matches AutomodEvent::Strikes { count, now } && count >= 2 && !(-8334601228800 <= now
            && now + 7 * 86400 <= 8210266876799),
{
}

proof fn entering_stage(
    m: AutomodMessage,
    states: Seq<AutomodState>,
    events: Seq<AutomodEvent>,
    actions: Seq<AutomodAction>,
    lo: int,
    n: int,
    x: Stage,
) -> (k: int)
    requires
        valid_run(m, states, events, actions),
        0 <= lo < n < states.len(),
        states[lo].stage != x,
        states[n].stage == x,
    ensures
        lo <= k < n,
        states[k].stage != x,
        states[k + 1].stage == x,
    decreases n - lo,
{
    if states[n - 1].stage != x {
        n - 1
    } else {
        entering_stage(m, states, events, actions, lo, n - 1, x)
    }
}

/// Law: when the direct message to the author failed, the author is warned
/// in the guild before the message is deleted.
pub proof fn failed_dm_leads_to_guild_warning(
    m: AutomodMessage,
    states: Seq<AutomodState>,
    events: Seq<AutomodEvent>,
    actions: Seq<AutomodAction>,
    j: int,
    n: int,
)
    requires
        valid_run(m, states, events, actions),
        0 <= j < n < states.len(),
        events[j] == (AutomodEvent::DirectMessage { delivered: false }),
        states[n].stage == Stage::Deletion,
    ensures
        exists|k: int| j < k < n && actions[k] is WarnInGuild,
{
    assert(expects(states[j].stage, events[j]));
    assert(step_spec(m, states[j], events[j], states[j + 1], actions[j]));
    // The deletion stage is entered after the direct message.
    let d = entering_stage(m, states, events, actions, j, n, Stage::Deletion);
    assert(expects(states[d].stage, events[d]));
    assert(step_spec(m, states[d], events[d], states[d + 1], actions[d]));
    if d == j {
        assert(false);
    }
    delivery_is_kept(m, states, events, actions, j, d, false);
    // Only the warning step enters deletion when the message was not delivered.
    assert(states[d].stage == Stage::GuildWarning);
    let w = entering_stage(m, states, events, actions, j, d, Stage::GuildWarning);
    assert(expects(states[w].stage, events[w]));
    assert(step_spec(m, states[w], events[w], states[w + 1], actions[w]));
    if w == j {
        assert(false);
    }
    assert(actions[w] is WarnInGuild);
}

} // verus!
