use vstd::prelude::*;

use crate::database::{PartialPunishment, Punishment, PunishmentType};
use crate::punishments::{display_of, mention, mention_line, reason_or, text_or, uuid_simple, uuid_simple_text, PunishmentDisplay};
use crate::text::{decimal, push_decimal};

verus! {

/// The data that commands share. It holds nothing.
pub struct Data {}

/// How many seconds of a member's messages a ban deletes: an hour's worth,
/// unless the moderator chose to keep them. Deleting is the default.
pub fn ban_delete_message_seconds(delete_messages: Option<bool>) -> (r: u32)
    ensures
        r == (if delete_messages != Some(false) { 3600u32 } else { 0u32 }),
{
    let delete = match delete_messages {
        Some(b) => b,
        None => true,
    };
    if delete {
        3600
    } else {
        0
    }
}

/// What marking a punishment stale undoes on Discord.
#[derive(Clone, Copy, Debug, PartialEq, Eq, Structural)]
pub enum StaleFollowUp {
    /// Lift the member's timeout.
    EnableCommunication,
    /// Lift the ban.
    RemoveBan,
    /// Nothing to undo.
    Nothing,
}

/// Timeouts are lifted, bans are lifted, other punishments need nothing.
pub fn stale_follow_up(kind: PunishmentType) -> (r: StaleFollowUp)
    ensures
        r == match kind {
            PunishmentType::TIMEOUT => StaleFollowUp::EnableCommunication,
            PunishmentType::BAN => StaleFollowUp::RemoveBan,
            _ => StaleFollowUp::Nothing,
        },
{
    match kind {
        PunishmentType::TIMEOUT => StaleFollowUp::EnableCommunication,
        PunishmentType::BAN => StaleFollowUp::RemoveBan,
        _ => StaleFollowUp::Nothing,
    }
}

/// The outcome of looking up a punishment for a command: the punishment, or
/// the ephemeral reply to send and the error the command ends with.
pub enum FetchOutcome {
    Found(Punishment),
    Rejected { reply: String, error: String },
}

/// Decides what a command does with the result of looking up a punishment:
/// a failed lookup is reported with its error, a missing punishment is
/// reported as not found, and a found one is handed on.
pub fn ensure_valid_punishment(fetched: Result<Option<Punishment>, String>) -> (r: FetchOutcome)
    ensures
        match fetched {
            Ok(Some(p)) => r == FetchOutcome::Found(p),
            Ok(None) => r matches FetchOutcome::Rejected { reply, error } && reply@ == "No punishment found."@
                && error@ == "No punishment."@,
            Err(e) => r matches FetchOutcome::Rejected { reply, error } && reply@ == "Something went wrong: "@
                + e@ && error@ == e@,
        },
{
    match fetched {
        Err(e) => {
            let mut reply = String::from_str("Something went wrong: ");
            reply.append(e.as_str());
            FetchOutcome::Rejected { reply, error: e }
        },
        Ok(None) => FetchOutcome::Rejected {
            reply: String::from_str("No punishment found."),
            error: String::from_str("No punishment."),
        },
        Ok(Some(p)) => FetchOutcome::Found(p),
    }
}

pub open spec fn emoji_of(val: bool) -> Seq<char> {
    if val {
        "<:yes:1500220801108934786>"@
    } else {
        "<:no:1500220802841182211>"@
    }
}

fn bool_to_emoji(val: bool) -> (r: &'static str)
    ensures
        r@ == emoji_of(val),
{
    if val {
        "<:yes:1500220801108934786>"
    } else {
        "<:no:1500220802841182211>"
    }
}

/// The lines that show the details of punishment `p`, issued by the user
/// named `issued_by_name` to the user named `issued_to_name`.
pub open spec fn show_lines(p: &Punishment, issued_by_name: Seq<char>, issued_to_name: Seq<char>) -> Seq<Seq<char>> {
    let head = seq![
        "### Punishment "@ + uuid_simple_text(p.punishment_id),
        "**Type**: "@ + display_of(p.punishment_type),
        "**Stale**: "@ + emoji_of(p.stale),
    ];
    let with_time = match p.stale_time_sec {
        Some(t) => head.push("**Stale Time**: <t:"@ + decimal(t as nat) + ":F>"@),
        None => head,
    };
    let with_reason = match p.stale_reason.deep_view() {
        Some(r) => with_time.push("**Stale Reason**: "@ + r),
        None => with_time,
    };
    with_reason + seq![
        "**Time**: <t:"@ + decimal(p.time_sec as nat) + ":F>"@,
        mention_line("**Issued by**: "@, p.issued_by.0, issued_by_name),
        mention_line("**Issued to**: "@, p.issued_to.0, issued_to_name),
        "**Reason**: "@ + text_or(p.reason.deep_view(), "*No reason provided*"@),
    ]
}

/// The container that shows a punishment: its text lines and its accent
/// colour.
pub struct ShowComponent {
    pub lines: Vec<String>,
    pub color: u32,
}

/// The container that shows punishment `p`: its details line by line, with
/// the colour of its type as the accent colour.
pub fn construct_show_component(p: &Punishment, issued_by_name: &str, issued_to_name: &str) -> (r: ShowComponent)
    ensures
        r.lines@.map_values(|l: String| l@) == show_lines(p, issued_by_name@, issued_to_name@),
        r.color == crate::punishments::color_of(p.punishment_type),
{
    let display = PunishmentDisplay::from_punishment_type(&p.punishment_type);
    let id_text = uuid_simple(p.punishment_id);
    let mut fields: Vec<String> = Vec::new();
    let mut l = String::from_str("### Punishment ");
    l.append(id_text.as_str());
    fields.push(l);
    let mut l = String::from_str("**Type**: ");
    l.append(display.display);
    fields.push(l);
    let mut l = String::from_str("**Stale**: ");
    l.append(bool_to_emoji(p.stale));
    fields.push(l);
    let ghost head = fields@.map_values(|l: String| l@);
    match p.stale_time_sec {
        Some(t) => {
            let mut l = String::from_str("**Stale Time**: <t:");
            push_decimal(&mut l, t as u64);
            l.append(":F>");
            fields.push(l);
        },
        None => {},
    }
    let ghost with_time = fields@.map_values(|l: String| l@);
    match &p.stale_reason {
        Some(r) => {
            let mut l = String::from_str("**Stale Reason**: ");
            l.append(r.as_str());
            fields.push(l);
        },
        None => {},
    }
    let ghost with_reason = fields@.map_values(|l: String| l@);
    let mut l = String::from_str("**Time**: <t:");
    push_decimal(&mut l, p.time_sec);
    l.append(":F>");
    fields.push(l);
    fields.push(mention("**Issued by**: ", p.issued_by.0, issued_by_name));
    fields.push(mention("**Issued to**: ", p.issued_to.0, issued_to_name));
    let mut l = String::from_str("**Reason**: ");
    let reason = reason_or(&p.reason, "*No reason provided*");
    l.append(reason.as_str());
    fields.push(l);
    proof {
        let spec_head = seq![
            "### Punishment "@ + uuid_simple_text(p.punishment_id),
            "**Type**: "@ + display_of(p.punishment_type),
            "**Stale**: "@ + emoji_of(p.stale),
        ];
        assert(head =~= spec_head);
        let spec_time = match p.stale_time_sec {
            Some(t) => spec_head.push("**Stale Time**: <t:"@ + decimal(t as nat) + ":F>"@),
            None => spec_head,
        };
        assert(with_time =~= spec_time);
        let spec_reason = match p.stale_reason.deep_view() {
            Some(r) => spec_time.push("**Stale Reason**: "@ + r),
            None => spec_time,
        };
        assert(with_reason =~= spec_reason);
        assert(fields@.map_values(|l: String| l@) =~= show_lines(p, issued_by_name@, issued_to_name@));
    }
    ShowComponent { lines: fields, color: display.color }
}

pub open spec fn entry_lines(e: &PartialPunishment) -> Seq<Seq<char>> {
    let head = display_of(e.punishment_type) + " (`"@ + uuid_simple_text(e.punishment_id) + "`) <t:"@
        + decimal(e.time_sec as nat) + ":F>"@;
    match e.reason.deep_view() {
        Some(r) => seq![head, "⟶ `"@ + r + "`"@],
        None => seq![head],
    }
}

/// The lines that list punishments `es` in their order.
pub open spec fn history_lines(es: Seq<PartialPunishment>) -> Seq<Seq<char>>
    decreases es.len(),
{
    if es.len() == 0 {
        Seq::empty()
    } else {
        history_lines(es.drop_last()) + entry_lines(&es.last())
    }
}

/// The lines of a search result: a line per punishment and a line for its
/// reason where it has one, or a single line that says nothing was found.
pub open spec fn search_lines(es: Seq<PartialPunishment>) -> Seq<Seq<char>> {
    if es.len() == 0 {
        seq!["No results found."@]
    } else {
        history_lines(es)
    }
}

/// The text lines that list the punishments found for a user, in the order
/// in which they were found.
pub fn punishment_history_lines(entries: &Vec<PartialPunishment>) -> (r: Vec<String>)
    ensures
        r@.map_values(|l: String| l@) == search_lines(entries@),
{
    let mut fields: Vec<String> = Vec::new();
    if entries.len() == 0 {
        fields.push(String::from_str("No results found."));
        assert(fields@.map_values(|l: String| l@) =~= search_lines(entries@));
        return fields;
    }
    let mut i: usize = 0;
    while i < entries.len()
        invariant
            i <= entries@.len(),
            fields@.map_values(|l: String| l@) == history_lines(entries@.take(i as int)),
        decreases entries@.len() - i,
    {
        let e = &entries[i];
        let ghost before = fields@.map_values(|l: String| l@);
        let display = PunishmentDisplay::from_punishment_type(&e.punishment_type);
        let mut l = String::from_str(display.display);
        l.append(" (`");
        let id_text = uuid_simple(e.punishment_id);
        l.append(id_text.as_str());
        l.append("`) <t:");
        push_decimal(&mut l, e.time_sec);
        l.append(":F>");
        fields.push(l);
        match &e.reason {
            Some(reason) => {
                let mut l = String::from_str("⟶ `");
                l.append(reason.as_str());
                l.append("`");
                fields.push(l);
            },
            None => {},
        }
        proof {
            let t = entries@.take(i + 1);
            assert(t.drop_last() =~= entries@.take(i as int));
            assert(t.last() == *e);
            assert(fields@.map_values(|l: String| l@) =~= before + entry_lines(e));
        }
        i = i + 1;
    }
    assert(entries@.take(entries@.len() as int) =~= entries@);
    fields
}

/// The heading of a user's punishment history.
pub fn history_heading(user_name: &str) -> (r: String)
    ensures
        r@ == "## Punishment history for "@ + user_name@,
{
    let mut s = String::from_str("## Punishment history for ");
    s.append(user_name);
    s
}

/// The URL of the default avatar that Discord shows for the user `id`.
pub open spec fn default_avatar_url(id: u64) -> Seq<char> {
    "https://cdn.discordapp.com/embed/avatars/"@ + decimal(((id as nat) / 0x40_0000) % 6) + ".png"@
}

/// The user's avatar, or Discord's default avatar for the user where none is set.
pub fn avatar_or_default(avatar: Option<String>, id: u64) -> (r: String)
    ensures
        r@ == match avatar.deep_view() {
            Some(a) => a,
            None => default_avatar_url(id),
        },
{
    match avatar {
        Some(a) => a,
        None => {
            let shifted = id >> 22;
            assert(shifted == id / 0x40_0000) by (bit_vector)
                requires shifted == id >> 22;
            let mut s = String::from_str("https://cdn.discordapp.com/embed/avatars/");
            push_decimal(&mut s, shifted % 6);
            s.append(".png");
            s
        },
    }
}

/// `name (id)`: how reports and mod mail name a user.
pub fn user_label(name: &str, id: u64) -> (r: String)
    ensures
        r@ == name@ + " ("@ + decimal(id as nat) + ")"@,
{
    let mut s = String::from_str(name);
    s.append(" (");
    push_decimal(&mut s, id);
    s.append(")");
    s
}

/// The body of a report: the reported message's content under a heading.
pub fn reported_content(content: &str) -> (r: String)
    ensures
        r@ == "**Reported Content**: \n\n"@ + content@,
{
    let mut s = String::from_str("**Reported Content**: \n\n");
    s.append(content);
    s
}

/// The reply that confirms a report of a message by the user `author_id`.
pub fn report_confirmation(author_id: u64) -> (r: String)
    ensures
        r@ == "Successfully reported a message by <@"@ + decimal(author_id as nat) + ">."@,
{
    let mut s = String::from_str("Successfully reported a message by <@");
    push_decimal(&mut s, author_id);
    s.append(">.");
    s
}

/// The custom id and the title of the modal that asks for the reason of a
/// ban or kick of the user `name`: `action_id` is `ban` or `kick`,
/// `action_title` is `Ban` or `Kick`.
pub fn reason_modal_ids(action_id: &str, action_title: &str, name: &str) -> (r: (String, String))
    ensures
        r.0@ == action_id@ + "_"@ + name@,
        r.1@ == action_title@ + " "@ + name@,
{
    let mut id = String::from_str(action_id);
    id.append("_");
    id.append(name);
    let mut title = String::from_str(action_title);
    title.append(" ");
    title.append(name);
    (id, title)
}

/// The reason recorded for a quick ban of a message sent in `channel_id`.
pub fn quick_ban_reason(channel_id: u64) -> (r: String)
    ensures
        r@ == "Quick-banned for sending a message in <#"@ + decimal(channel_id as nat) + ">"@,
{
    let mut s = String::from_str("Quick-banned for sending a message in <#");
    push_decimal(&mut s, channel_id);
    s.append(">");
    s
}

/// The reply to a successful change of a punishment's reason.
pub fn reason_updated_reply(punishment_id: u128) -> (r: String)
    ensures
        r@ == "Punishment `"@ + uuid_simple_text(punishment_id) + "` was successfully updated."@,
{
    let mut s = String::from_str("Punishment `");
    let id_text = uuid_simple(punishment_id);
    s.append(id_text.as_str());
    s.append("` was successfully updated.");
    s
}

/// Where a report or a mod mail goes.
#[derive(Clone, Copy, Debug, PartialEq, Eq, Structural)]
pub enum Destination {
    /// The guild has not set up a channel for it.
    NotSetUp,
    /// The channel with this id.
    Channel(u64),
    /// The configured channel id is not a number: the command fails.
    InvalidChannel,
}

pub open spec fn destination_of(channel: Option<Seq<char>>) -> Destination {
    match channel {
        None => Destination::NotSetUp,
        Some(c) => match crate::config::parsed_u64(c) {
            Some(id) => Destination::Channel(id),
            None => Destination::InvalidChannel,
        },
    }
}

/// Reads a configured channel: not set up, or the channel id it names.
pub fn destination(channel: Option<String>) -> (r: Destination)
    ensures
        r == destination_of(channel.deep_view()),
{
    match channel {
        None => Destination::NotSetUp,
        Some(c) => match crate::config::parse_u64(c.as_str()) {
            Some(id) => Destination::Channel(id),
            None => Destination::InvalidChannel,
        },
    }
}

/// Where reports from the guild `guild_id` go.
pub fn report_destination(config: &crate::config::Configuration, guild_id: u64) -> (r: Destination)
    ensures
        r == destination_of(
            match crate::config::configured_channels(config.guilds@, decimal(guild_id as nat)) {
                Some(c) => c.channel_report.deep_view(),
                None => None,
            },
        ),
{
    destination(crate::config::report_channel(config, guild_id))
}

/// Where mod mail from the guild `guild_id` goes.
pub fn modmail_destination(config: &crate::config::Configuration, guild_id: u64) -> (r: Destination)
    ensures
        r == destination_of(
            match crate::config::configured_channels(config.guilds@, decimal(guild_id as nat)) {
                Some(c) => c.channel_mod_msg.deep_view(),
                None => None,
            },
        ),
{
    destination(crate::config::modmail_channel(config, guild_id))
}

/// The fields that `/about` shows: the version (commit and branch), the
/// build time and the boot time, the times as Discord timestamps.
pub struct AboutFields {
    pub version: String,
    pub build_time: String,
    pub boot_time: String,
}

pub fn about_fields(git_hash: &str, git_branch: &str, build_time_sec: &str, boot_secs: u64) -> (r: AboutFields)
    ensures
        r.version@ == "`"@ + git_hash@ + "` on `"@ + git_branch@ + "`"@,
        r.build_time@ == "<t:"@ + build_time_sec@ + ":F>"@,
        r.boot_time@ == "<t:"@ + decimal(boot_secs as nat) + ":R>"@,
{
    let mut version = String::from_str("`");
    version.append(git_hash);
    version.append("` on `");
    version.append(git_branch);
    version.append("`");
    let build_time = crate::text::join3("<t:", build_time_sec, ":F>");
    let mut boot_time = String::from_str("<t:");
    push_decimal(&mut boot_time, boot_secs);
    boot_time.append(":R>");
    AboutFields { version, build_time, boot_time }
}

/// How the details of a punishment are laid out: its id, its type, whether
/// it is stale, then the stale time exactly when one is recorded and the
/// stale reason exactly when one is recorded (each on its own, whatever the
/// other holds), then the time of issue, who issued it, to whom, and why.
pub proof fn law_show_layout(p: &Punishment, issued_by_name: Seq<char>, issued_to_name: Seq<char>)
    ensures
        ({
            let ls = show_lines(p, issued_by_name, issued_to_name);
            let nt: int = if p.stale_time_sec is Some { 1 } else { 0 };
            let nr: int = if p.stale_reason is Some { 1 } else { 0 };
            &&& ls.len() == 7 + nt + nr
            &&& ls[0] == "### Punishment "@ + uuid_simple_text(p.punishment_id)
            &&& ls[1] == "**Type**: "@ + display_of(p.punishment_type)
            &&& p.stale ==> ls[2] == "**Stale**: "@ + "<:yes:1500220801108934786>"@
            &&& !p.stale ==> ls[2] == "**Stale**: "@ + "<:no:1500220802841182211>"@
            &&& (p.stale_time_sec matches Some(t) ==> ls[3] == "**Stale Time**: <t:"@ + decimal(t as nat) + ":F>"@)
            &&& (p.stale_reason.deep_view() matches Some(r) ==> ls[3 + nt] == "**Stale Reason**: "@ + r)
            &&& ls[ls.len() - 4] == "**Time**: <t:"@ + decimal(p.time_sec as nat) + ":F>"@
            &&& ls[ls.len() - 3] == "**Issued by**: "@ + "<@"@ + decimal(p.issued_by.0 as nat) + "> (`@"@ + issued_by_name
                + "` / `"@ + decimal(p.issued_by.0 as nat) + "`)"@
            &&& ls[ls.len() - 2] == "**Issued to**: "@ + "<@"@ + decimal(p.issued_to.0 as nat) + "> (`@"@ + issued_to_name
                + "` / `"@ + decimal(p.issued_to.0 as nat) + "`)"@
            &&& (p.reason.deep_view() matches Some(r) ==> ls[ls.len() - 1] == "**Reason**: "@ + r)
            &&& (p.reason is None ==> ls[ls.len() - 1] == "**Reason**: "@ + "*No reason provided*"@)
        }),
{
    let ls = show_lines(p, issued_by_name, issued_to_name);
    assert(p.stale_reason is Some <==> p.stale_reason.deep_view() is Some);
    assert(p.reason is Some <==> p.reason.deep_view() is Some);
    let head = seq![
        "### Punishment "@ + uuid_simple_text(p.punishment_id),
        "**Type**: "@ + display_of(p.punishment_type),
        "**Stale**: "@ + emoji_of(p.stale),
    ];
    let wt = match p.stale_time_sec {
        Some(t) => head.push("**Stale Time**: <t:"@ + decimal(t as nat) + ":F>"@),
        None => head,
    };
    let wr = match p.stale_reason.deep_view() {
        Some(r) => wt.push("**Stale Reason**: "@ + r),
        None => wt,
    };
    let tail = seq![
        "**Time**: <t:"@ + decimal(p.time_sec as nat) + ":F>"@,
        mention_line("**Issued by**: "@, p.issued_by.0, issued_by_name),
        mention_line("**Issued to**: "@, p.issued_to.0, issued_to_name),
        "**Reason**: "@ + text_or(p.reason.deep_view(), "*No reason provided*"@),
    ];
    assert(ls == wr + tail);
    let nt: int = if p.stale_time_sec is Some { 1 } else { 0 };
    assert(wt.len() == 3 + nt);
    assert(wt[0] == head[0] && wt[1] == head[1] && wt[2] == head[2]);
    assert(wr[0] == wt[0] && wr[1] == wt[1] && wr[2] == wt[2]);
    if p.stale_time_sec is Some {
        assert(wr[3] == wt[3]);
    }
    let n = wr.len() as int;
    assert(ls[0] == wr[0] && ls[1] == wr[1] && ls[2] == wr[2]);
    if n > 3 {
        assert(ls[3] == wr[3]);
    }
    if n > 4 {
        assert(ls[4] == wr[4]);
    }
    assert(ls[n] == tail[0] && ls[n + 1] == tail[1] && ls[n + 2] == tail[2] && ls[n + 3] == tail[3]);
}

/// The listing of one punishment: its type, id and time on one line, then
/// its reason on the next line where it has one.
pub proof fn law_history_single(e: PartialPunishment)
    ensures
        history_lines(seq![e]) == seq![
            display_of(e.punishment_type) + " (`"@ + uuid_simple_text(e.punishment_id) + "`) <t:"@ + decimal(
                e.time_sec as nat,
            ) + ":F>"@,
        ] + match e.reason.deep_view() {
            Some(r) => seq!["⟶ `"@ + r + "`"@],
            None => Seq::<Seq<char>>::empty(),
        },
{
    assert(seq![e].drop_last() =~= Seq::<PartialPunishment>::empty());
    assert(history_lines(Seq::<PartialPunishment>::empty()) == Seq::<Seq<char>>::empty());
    assert(history_lines(seq![e]) == history_lines(seq![e].drop_last()) + entry_lines(&seq![e].last()));
    assert(history_lines(seq![e]) =~= entry_lines(&e));
    match e.reason.deep_view() {
        Some(r) => {
            assert(entry_lines(&e) =~= seq![
                display_of(e.punishment_type) + " (`"@ + uuid_simple_text(e.punishment_id) + "`) <t:"@
                    + decimal(e.time_sec as nat) + ":F>"@,
            ] + seq!["⟶ `"@ + r + "`"@]);
        },
        None => {
            assert(entry_lines(&e) =~= seq![
                display_of(e.punishment_type) + " (`"@ + uuid_simple_text(e.punishment_id) + "`) <t:"@
                    + decimal(e.time_sec as nat) + ":F>"@,
            ] + Seq::<Seq<char>>::empty());
        },
    }
}

/// The listing of two runs of punishments, one after the other, is the
/// listing of the first run followed by the listing of the second: every
/// punishment contributes its own lines, its reason included, wherever it
/// stands.
pub proof fn law_history_concat(a: Seq<PartialPunishment>, b: Seq<PartialPunishment>)
    ensures
        history_lines(a + b) == history_lines(a) + history_lines(b),
    decreases b.len(),
{
    if b.len() == 0 {
        assert(a + b =~= a);
        assert(history_lines(a) + history_lines(b) =~= history_lines(a));
    } else {
        let b1 = b.drop_last();
        law_history_concat(a, b1);
        assert((a + b).drop_last() =~= a + b1);
        assert((a + b).last() == b.last());
        assert(history_lines(a + b) == history_lines(a + b1) + entry_lines(&b.last()));
        assert(history_lines(a) + history_lines(b) =~= history_lines(a) + history_lines(b1) + entry_lines(&b.last()));
    }
}

/// A search that found nothing says so in one line; a search that found
/// punishments lists them.
pub proof fn law_search_result(es: Seq<PartialPunishment>)
    ensures
        es.len() == 0 ==> search_lines(es) == seq!["No results found."@],
        es.len() > 0 ==> search_lines(es) == history_lines(es),
{
}

} // verus!
