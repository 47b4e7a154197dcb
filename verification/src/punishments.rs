use vstd::prelude::*;

use crate::database::{Punishment, PunishmentType};
use crate::text::{decimal, push_decimal};

verus! {

/// How a punishment type is shown: its label, its colour, and the text of
/// the direct message that tells the member.
pub struct PunishmentDisplay<'a> {
    pub display: &'a str,
    pub color: u32,
    pub dm_text: &'a str,
}

pub open spec fn display_of(t: PunishmentType) -> Seq<char> {
    match t {
        PunishmentType::KICK => "<:dot_gray:1499540057172742174> kick"@,
        PunishmentType::WARN => "<:dot_orange:1499540055402745876> warn"@,
        PunishmentType::BAN => "<:dot_red:1499540053737865457> ban"@,
        PunishmentType::TIMEOUT => "<:dot_purple:1499540059672805546> timeout"@,
        PunishmentType::NOTE => "<:dot_blue:1499540058330632234> note"@,
    }
}

pub open spec fn color_of(t: PunishmentType) -> u32 {
    match t {
        PunishmentType::KICK => 0xB3968D,
        PunishmentType::WARN => 0xFAA620,
        PunishmentType::BAN => 0xEF4949,
        PunishmentType::TIMEOUT => 0x9A59B4,
        PunishmentType::NOTE => 0x3797DA,
    }
}

pub open spec fn dm_text_of(t: PunishmentType) -> Seq<char> {
    match t {
        PunishmentType::KICK => "You have been kicked."@,
        PunishmentType::WARN => "You have been warned."@,
        PunishmentType::BAN => "You have been banned."@,
        PunishmentType::TIMEOUT => "You have been timed out."@,
        PunishmentType::NOTE => ""@,
    }
}

impl<'a> PunishmentDisplay<'a> {
    fn from(display: &'a str, color: u32, dm_text: &'a str) -> (r: PunishmentDisplay<'a>)
        ensures
            r.display@ == display@,
            r.color == color,
            r.dm_text@ == dm_text@,
    {
        PunishmentDisplay { display, color, dm_text }
    }

    /// How punishments of type `kind` are shown.
    pub fn from_punishment_type(kind: &PunishmentType) -> (r: PunishmentDisplay<'a>)
        ensures
            r.display@ == display_of(*kind),
            r.color == color_of(*kind),
            r.dm_text@ == dm_text_of(*kind),
    {
        match kind {
            PunishmentType::KICK => PunishmentDisplay::from(
                "<:dot_gray:1499540057172742174> kick",
                0xB3968D,
                "You have been kicked.",
            ),
            PunishmentType::WARN => PunishmentDisplay::from(
                "<:dot_orange:1499540055402745876> warn",
                0xFAA620,
                "You have been warned.",
            ),
            PunishmentType::BAN => PunishmentDisplay::from(
                "<:dot_red:1499540053737865457> ban",
                0xEF4949,
                "You have been banned.",
            ),
            PunishmentType::TIMEOUT => PunishmentDisplay::from(
                "<:dot_purple:1499540059672805546> timeout",
                0x9A59B4,
                "You have been timed out.",
            ),
            PunishmentType::NOTE => PunishmentDisplay::from(
                "<:dot_blue:1499540058330632234> note",
                0x3797DA,
                "",
            ),
        }
    }
}

/// The lower-case hexadecimal digit of `d`, for `d` below 16.
pub open spec fn hex_digit(d: u128) -> char {
    if d < 10 {
        (48 + d) as char
    } else {
        (87 + d) as char
    }
}

/// A UUID in the "simple" format: the 32 lower-case hexadecimal digits of
/// its 128-bit value, most significant first.
pub open spec fn uuid_simple_text(id: u128) -> Seq<char> {
    Seq::new(32, |i: int| hex_digit((id >> ((124 - 4 * i) as u128)) & 0xf))
}

/// Writes the UUID with the 128-bit value `id` in the `uuid` crate's simple
/// format (`Uuid::from_u128(id).simple()`): 32 lower-case hexadecimal
/// digits of the value, most significant first, as the crate documents.
#[verifier::external_body]
pub(crate) fn uuid_simple(id: u128) -> (r: String)
    ensures
        r@ == uuid_simple_text(id),
{
    uuid::Uuid::from_u128(id).simple().to_string()
}

/// `reason`, or `fallback` where there is none.
pub open spec fn text_or(reason: Option<Seq<char>>, fallback: Seq<char>) -> Seq<char> {
    match reason {
        Some(r) => r,
        None => fallback,
    }
}

pub(crate) fn reason_or(reason: &Option<String>, fallback: &str) -> (r: String)
    ensures
        r@ == text_or(reason.deep_view(), fallback@),
{
    match reason {
        Some(r) => r.clone(),
        None => String::from_str(fallback),
    }
}

/// The direct message that tells a member of a punishment.
pub struct DirectMessage {
    pub color: u32,
    pub author_name: String,
    pub author_icon: String,
    pub title: String,
    pub reason: String,
    pub footer: String,
}

/// What announcing a punishment sends: the text lines of the container that
/// is posted where the command was used, its accent colour, and the direct
/// message for the member where there is one.
pub struct PunishmentMessages {
    pub lines: Vec<String>,
    pub color: u32,
    pub dm: Option<DirectMessage>,
}

pub open spec fn mention_line(label: Seq<char>, id: u64, name: Seq<char>) -> Seq<char> {
    label + "<@"@ + decimal(id as nat) + "> (`@"@ + name + "` / `"@ + decimal(id as nat) + "`)"@
}

/// The lines that announce the punishment `id` of type `kind` of the member
/// `target_id` (named `target_name`) for `reason`, with the text and the end
/// time of its duration where it has one.
pub open spec fn announcement_lines(
    id: u128,
    kind: PunishmentType,
    target_id: u64,
    target_name: Seq<char>,
    reason: Option<Seq<char>>,
    duration: Option<(Seq<char>, u64)>,
) -> Seq<Seq<char>> {
    let base = seq![
        "### Punishment "@ + uuid_simple_text(id),
        "**Type**: "@ + display_of(kind),
        mention_line("**Issued to**: "@, target_id, target_name),
        "**Reason**: "@ + text_or(reason, "*No reason provided*"@),
    ];
    match duration {
        Some((display, expiry)) => base.push(
            "**Duration**: ~"@ + display + " (expiry: <t:"@ + decimal(expiry as nat) + ":F>"@,
        ),
        None => base,
    }
}

/// Appends `<@id> (`@name` / `id`)` to `s`.
fn push_mention(s: &mut String, id: u64, name: &str)
    ensures
        final(s)@ == old(s)@ + "<@"@ + decimal(id as nat) + "> (`@"@ + name@ + "` / `"@ + decimal(
            id as nat,
        ) + "`)"@,
{
    s.append("<@");
    push_decimal(s, id);
    s.append("> (`@");
    s.append(name);
    s.append("` / `");
    push_decimal(s, id);
    s.append("`)");
}

pub(crate) fn mention(label: &str, id: u64, name: &str) -> (r: String)
    ensures
        r@ == mention_line(label@, id, name@),
{
    let mut s = String::from_str(label);
    push_mention(&mut s, id, name);
    s
}

/// The end of a duration of `seconds` that starts at `now_secs`, cut at the
/// largest `u64`.
pub open spec fn expiry_time(now_secs: u64, seconds: u64) -> u64 {
    if now_secs + seconds <= u64::MAX {
        (now_secs + seconds) as u64
    } else {
        u64::MAX
    }
}

/// `r` announces punishment `p` of member `target_id` (named `target_name`)
/// in the guild `guild_name` with icon `guild_icon`, where a timeout starts
/// at `now_secs`.
pub open spec fn composed(
    r: PunishmentMessages,
    p: &Punishment,
    target_id: u64,
    target_name: Seq<char>,
    guild_name: Seq<char>,
    guild_icon: Seq<char>,
    now_secs: u64,
) -> bool {
    &&& r.lines@.map_values(|l: String| l@) == announcement_lines(
        p.punishment_id,
        p.punishment_type,
        target_id,
        target_name,
        p.reason.deep_view(),
        match p.duration {
            Some(d) => Some((d.display@, expiry_time(now_secs, d.seconds))),
            None => None,
        },
    )
    &&& r.color == color_of(p.punishment_type)
    &&& (p.punishment_type == PunishmentType::NOTE) == r.dm is None
    &&& r.dm matches Some(dm) ==> {
        &&& dm.color == color_of(p.punishment_type)
        &&& dm.author_name@ == guild_name
        &&& dm.author_icon@ == guild_icon
        &&& dm.title@ == dm_text_of(p.punishment_type)
        &&& dm.reason@ == text_or(p.reason.deep_view(), "(not specified)"@)
        &&& dm.footer@ == "Punishment: "@ + uuid_simple_text(p.punishment_id)
    }
}

/// The messages that announce punishment `p` of the member `target_id`
/// (named `target_name`) in the guild `guild_name` with icon `guild_icon`,
/// where a timeout started at `now_secs`. Notes send no direct message.
pub fn compose_messages(
    p: &Punishment,
    target_id: u64,
    target_name: &str,
    guild_name: &str,
    guild_icon: &str,
    now_secs: u64,
) -> (r: PunishmentMessages)
    ensures
        composed(r, p, target_id, target_name@, guild_name@, guild_icon@, now_secs),
{
    let display = PunishmentDisplay::from_punishment_type(&p.punishment_type);
    let id_text = uuid_simple(p.punishment_id);
    let mut lines: Vec<String> = Vec::new();
    let mut l1 = String::from_str("### Punishment ");
    l1.append(id_text.as_str());
    lines.push(l1);
    let mut l2 = String::from_str("**Type**: ");
    l2.append(display.display);
    lines.push(l2);
    lines.push(mention("**Issued to**: ", target_id, target_name));
    let mut l4 = String::from_str("**Reason**: ");
    let reason_text = reason_or(&p.reason, "*No reason provided*");
    l4.append(reason_text.as_str());
    lines.push(l4);
    match &p.duration {
        Some(d) => {
            let mut l5 = String::from_str("**Duration**: ~");
            l5.append(d.display.as_str());
            l5.append(" (expiry: <t:");
            push_decimal(&mut l5, d.unix_time_after(now_secs));
            l5.append(":F>");
            lines.push(l5);
        },
        None => {},
    }
    let dm = if p.punishment_type == PunishmentType::NOTE {
        None
    } else {
        let mut footer = String::from_str("Punishment: ");
        footer.append(id_text.as_str());
        Some(
            DirectMessage {
                color: display.color,
                author_name: String::from_str(guild_name),
                author_icon: String::from_str(guild_icon),
                title: String::from_str(display.dm_text),
                reason: reason_or(&p.reason, "(not specified)"),
                footer,
            },
        )
    };
    let r = PunishmentMessages { lines, color: display.color, dm };
    assert(r.lines@.map_values(|l: String| l@) =~= announcement_lines(
        p.punishment_id,
        p.punishment_type,
        target_id,
        target_name@,
        p.reason.deep_view(),
        match p.duration {
            Some(d) => Some((d.display@, expiry_time(now_secs, d.seconds))),
            None => None,
        },
    ));
    r
}

/// The messages that announce punishment `p` now: as `compose_messages`
/// with the time that the clock gives (the epoch, where the clock reads
/// before it).
pub fn get_messages(
    p: &Punishment,
    target_id: u64,
    target_name: &str,
    guild_name: &str,
    guild_icon: &str,
) -> (r: PunishmentMessages)
    ensures
        exists|now: u64| #[trigger] composed(r, p, target_id, target_name@, guild_name@, guild_icon@, now),
{
    let now = crate::database::now_or_epoch();
    let r = compose_messages(p, target_id, target_name, guild_name, guild_icon, now);
    assert(composed(r, p, target_id, target_name@, guild_name@, guild_icon@, now));
    r
}

/// The member hears of every punishment but a note: the direct message is
/// there exactly when the punishment is not a note, carries the reason (or
/// says that none was given) and names the punishment in its footer.
pub proof fn law_direct_message_unless_note(
    r: PunishmentMessages,
    p: &Punishment,
    target_id: u64,
    target_name: Seq<char>,
    guild_name: Seq<char>,
    guild_icon: Seq<char>,
    now_secs: u64,
)
    requires
        composed(r, p, target_id, target_name, guild_name, guild_icon, now_secs),
    ensures
        r.dm is Some <==> p.punishment_type != PunishmentType::NOTE,
        p.punishment_type == PunishmentType::WARN ==> r.dm is Some,
        p.punishment_type == PunishmentType::KICK ==> r.dm is Some,
        p.punishment_type == PunishmentType::BAN ==> r.dm is Some,
        p.punishment_type == PunishmentType::TIMEOUT ==> r.dm is Some,
        r.dm matches Some(dm) ==> {
            &&& dm.author_name@ == guild_name
            &&& dm.author_icon@ == guild_icon
            &&& dm.color == r.color
            &&& (p.reason.deep_view() matches Some(reason) ==> dm.reason@ == reason)
            &&& (p.reason is None ==> dm.reason@ == "(not specified)"@)
            &&& dm.footer@ == "Punishment: "@ + uuid_simple_text(p.punishment_id)
        },
{
    assert(p.reason is Some <==> p.reason.deep_view() is Some);
}

/// The announcement has the four lines of every punishment, and a fifth
/// exactly when the punishment has a duration: that line shows the time at
/// which the duration ends, its full length after `now_secs`.
pub proof fn law_announcement_shows_end(
    r: PunishmentMessages,
    p: &Punishment,
    target_id: u64,
    target_name: Seq<char>,
    guild_name: Seq<char>,
    guild_icon: Seq<char>,
    now_secs: u64,
)
    requires
        composed(r, p, target_id, target_name, guild_name, guild_icon, now_secs),
    ensures
        ({
            let ls = r.lines@.map_values(|l: String| l@);
            &&& ls.len() == if p.duration is Some { 5int } else { 4int }
            &&& ls[0] == "### Punishment "@ + uuid_simple_text(p.punishment_id)
            &&& ls[1] == "**Type**: "@ + display_of(p.punishment_type)
            &&& (p.reason.deep_view() matches Some(reason) ==> ls[3] == "**Reason**: "@ + reason)
            &&& (p.duration matches Some(d) ==> exists|end: u64| {
                &&& ls[4] == "**Duration**: ~"@ + d.display@ + " (expiry: <t:"@ + decimal(end as nat) + ":F>"@
                &&& (now_secs + d.seconds <= u64::MAX ==> end - now_secs == d.seconds)
                &&& end >= now_secs
            })
        }),
{
    let ls = r.lines@.map_values(|l: String| l@);
    match p.duration {
        Some(d) => {
            let end = expiry_time(now_secs, d.seconds);
            assert(ls[4] == "**Duration**: ~"@ + d.display@ + " (expiry: <t:"@ + decimal(end as nat) + ":F>"@);
        },
        None => {},
    }
}

} // verus!
