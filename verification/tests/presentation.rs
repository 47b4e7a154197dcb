use sentinel::commands::{
    about_fields,
    avatar_or_default, ban_delete_message_seconds, construct_show_component, ensure_valid_punishment, history_heading,
    punishment_history_lines, quick_ban_reason, reason_modal_ids, reason_updated_reply, report_confirmation,
    reported_content, stale_follow_up, user_label, FetchOutcome, StaleFollowUp,
};
use sentinel::database::{Duration, PartialPunishment, Punishment, PunishmentType};
use sentinel::punishments::{compose_messages, get_messages, PunishmentDisplay};
use sentinel::wrapper::UserIdWrapper;

const ID: u128 = 0x0123_4567_89ab_cdef_0123_4567_89ab_cdef;
const ID_TEXT: &str = "0123456789abcdef0123456789abcdef";

fn punishment(kind: PunishmentType, duration: Option<Duration>, reason: Option<&str>) -> Punishment {
    Punishment {
        punishment_id: ID,
        issued_to: UserIdWrapper(111),
        issued_by: UserIdWrapper(222),
        punishment_type: kind,
        duration,
        stale: false,
        stale_time_sec: None,
        stale_reason: None,
        time_sec: 1_700_000_000,
        reason: reason.map(|r| r.to_string()),
    }
}

#[test]
fn displays_of_each_type() {
    let cases = [
        (PunishmentType::KICK, "<:dot_gray:1499540057172742174> kick", 0xB3968D, "You have been kicked."),
        (PunishmentType::WARN, "<:dot_orange:1499540055402745876> warn", 0xFAA620, "You have been warned."),
        (PunishmentType::BAN, "<:dot_red:1499540053737865457> ban", 0xEF4949, "You have been banned."),
        (PunishmentType::TIMEOUT, "<:dot_purple:1499540059672805546> timeout", 0x9A59B4, "You have been timed out."),
        (PunishmentType::NOTE, "<:dot_blue:1499540058330632234> note", 0x3797DA, ""),
    ];
    for (kind, display, color, dm) in cases {
        let d = PunishmentDisplay::from_punishment_type(&kind);
        assert_eq!((d.display, d.color, d.dm_text), (display, color, dm));
    }
}

#[test]
fn uuid_simple_format() {
    assert_eq!(reason_updated_reply(0xffff_0000_0000_0000_0000_0000_0000_00ab), "Punishment `ffff00000000000000000000000000ab` was successfully updated.");
    assert_eq!(reason_updated_reply(0), "Punishment `00000000000000000000000000000000` was successfully updated.");
}

#[test]
fn ban_announcement_and_direct_message() {
    let p = punishment(PunishmentType::BAN, None, Some("spam"));
    let m = compose_messages(&p, 111, "alice", "Paper", "https://icon", 0);
    assert_eq!(
        m.lines,
        vec![
            format!("### Punishment {ID_TEXT}"),
            "**Type**: <:dot_red:1499540053737865457> ban".to_string(),
            "**Issued to**: <@111> (`@alice` / `111`)".to_string(),
            "**Reason**: spam".to_string(),
        ]
    );
    assert_eq!(m.color, 0xEF4949);
    let dm = m.dm.unwrap();
    assert_eq!(dm.color, 0xEF4949);
    assert_eq!(dm.author_name, "Paper");
    assert_eq!(dm.author_icon, "https://icon");
    assert_eq!(dm.title, "You have been banned.");
    assert_eq!(dm.reason, "spam");
    assert_eq!(dm.footer, format!("Punishment: {ID_TEXT}"));
}

#[test]
fn note_has_no_direct_message() {
    let p = punishment(PunishmentType::NOTE, None, None);
    let m = compose_messages(&p, 111, "alice", "Paper", "icon", 0);
    assert!(m.dm.is_none());
    assert_eq!(m.lines[3], "**Reason**: *No reason provided*");
}

#[test]
fn unspecified_reason_in_direct_message() {
    let p = punishment(PunishmentType::KICK, None, None);
    let m = compose_messages(&p, 111, "alice", "Paper", "icon", 0);
    assert_eq!(m.dm.unwrap().reason, "(not specified)");
}

#[test]
fn timeout_announcement_shows_expiry() {
    let p = punishment(PunishmentType::TIMEOUT, Some(Duration::new("1 hour", 3600)), Some("calm down"));
    let m = compose_messages(&p, 111, "alice", "Paper", "icon", 1_700_000_000);
    assert_eq!(m.lines.len(), 5);
    assert_eq!(m.lines[4], "**Duration**: ~1 hour (expiry: <t:1700003600:F>");
    let m = get_messages(&p, 111, "alice", "Paper", "icon");
    assert!(m.lines[4].starts_with("**Duration**: ~1 hour (expiry: <t:"));
}

#[test]
fn ban_deletes_an_hour_by_default() {
    assert_eq!(ban_delete_message_seconds(None), 3600);
    assert_eq!(ban_delete_message_seconds(Some(true)), 3600);
    assert_eq!(ban_delete_message_seconds(Some(false)), 0);
}

#[test]
fn stale_undoes_timeouts_and_bans() {
    assert_eq!(stale_follow_up(PunishmentType::TIMEOUT), StaleFollowUp::EnableCommunication);
    assert_eq!(stale_follow_up(PunishmentType::BAN), StaleFollowUp::RemoveBan);
    assert_eq!(stale_follow_up(PunishmentType::KICK), StaleFollowUp::Nothing);
    assert_eq!(stale_follow_up(PunishmentType::NOTE), StaleFollowUp::Nothing);
}

#[test]
fn fetched_punishment_outcomes() {
    match ensure_valid_punishment(Err("db locked".to_string())) {
        FetchOutcome::Rejected { reply, error } => {
            assert_eq!(reply, "Something went wrong: db locked");
            assert_eq!(error, "db locked");
        }
        FetchOutcome::Found(_) => panic!("expected a rejection"),
    }
    match ensure_valid_punishment(Ok(None)) {
        FetchOutcome::Rejected { reply, error } => {
            assert_eq!(reply, "No punishment found.");
            assert_eq!(error, "No punishment.");
        }
        FetchOutcome::Found(_) => panic!("expected a rejection"),
    }
    match ensure_valid_punishment(Ok(Some(punishment(PunishmentType::WARN, None, None)))) {
        FetchOutcome::Found(p) => assert_eq!(p.punishment_type, PunishmentType::WARN),
        FetchOutcome::Rejected { .. } => panic!("expected the punishment"),
    }
}

#[test]
fn show_component_lines() {
    let mut p = punishment(PunishmentType::TIMEOUT, None, Some("spam"));
    p.stale = true;
    p.stale_time_sec = Some(1_700_000_500);
    p.stale_reason = Some("appealed".to_string());
    let shown = construct_show_component(&p, "mod", "alice");
    assert_eq!(shown.color, 0x9A59B4);
    assert_eq!(
        shown.lines,
        vec![
            format!("### Punishment {ID_TEXT}"),
            "**Type**: <:dot_purple:1499540059672805546> timeout".to_string(),
            "**Stale**: <:yes:1500220801108934786>".to_string(),
            "**Stale Time**: <t:1700000500:F>".to_string(),
            "**Stale Reason**: appealed".to_string(),
            "**Time**: <t:1700000000:F>".to_string(),
            "**Issued by**: <@222> (`@mod` / `222`)".to_string(),
            "**Issued to**: <@111> (`@alice` / `111`)".to_string(),
            "**Reason**: spam".to_string(),
        ]
    );
    let q = punishment(PunishmentType::KICK, None, None);
    let shown = construct_show_component(&q, "mod", "alice");
    assert_eq!(shown.color, 0xB3968D);
    let lines = shown.lines;
    assert_eq!(lines.len(), 7);
    assert_eq!(lines[2], "**Stale**: <:no:1500220802841182211>");
    assert_eq!(lines[6], "**Reason**: *No reason provided*");
}

#[test]
fn history_listing() {
    assert_eq!(punishment_history_lines(&vec![]), vec!["No results found.".to_string()]);
    let entries = vec![
        PartialPunishment { punishment_id: ID, punishment_type: PunishmentType::WARN, time_sec: 20, reason: Some("rude".to_string()) },
        PartialPunishment { punishment_id: 0, punishment_type: PunishmentType::KICK, time_sec: 10, reason: None },
    ];
    assert_eq!(
        punishment_history_lines(&entries),
        vec![
            format!("<:dot_orange:1499540055402745876> warn (`{ID_TEXT}`) <t:20:F>"),
            "⟶ `rude`".to_string(),
            "<:dot_gray:1499540057172742174> kick (`00000000000000000000000000000000`) <t:10:F>".to_string(),
        ]
    );
    assert_eq!(history_heading("alice"), "## Punishment history for alice");
}

#[test]
fn default_avatars() {
    let id: u64 = 1093034213999132743;
    assert_eq!(avatar_or_default(None, id), format!("https://cdn.discordapp.com/embed/avatars/{}.png", (id >> 22) % 6));
    assert_eq!(avatar_or_default(None, 0), "https://cdn.discordapp.com/embed/avatars/0.png");
    assert_eq!(avatar_or_default(Some("https://a".to_string()), id), "https://a");
}

#[test]
fn report_texts() {
    assert_eq!(user_label("alice", 111), "alice (111)");
    assert_eq!(reported_content("hello"), "**Reported Content**: \n\nhello");
    assert_eq!(report_confirmation(111), "Successfully reported a message by <@111>.");
    assert_eq!(quick_ban_reason(555), "Quick-banned for sending a message in <#555>");
    assert_eq!(reason_updated_reply(ID), format!("Punishment `{ID_TEXT}` was successfully updated."));
    let (id, title) = reason_modal_ids("ban", "Ban", "alice");
    assert_eq!((id.as_str(), title.as_str()), ("ban_alice", "Ban alice"));
}

#[test]
fn about_texts() {
    let f = about_fields("abc123", "main", "1700000000", 1_700_000_100);
    assert_eq!(f.version, "`abc123` on `main`");
    assert_eq!(f.build_time, "<t:1700000000:F>");
    assert_eq!(f.boot_time, "<t:1700000100:R>");
}
