use sentinel::database::{
    convert_to_struct, insert_row, partial_from_columns, stale_time_sec, Duration, DurationChoices, PunishmentType,
};
use sentinel::text::decimal_string;
use sentinel::wrapper::{id_from_sql_integer, id_to_sql_integer, GuildIdWrapper, UserIdWrapper};

#[test]
fn sql_integer_keeps_small_ids() {
    assert_eq!(id_to_sql_integer(0), 0);
    assert_eq!(id_to_sql_integer(42), 42);
    assert_eq!(id_to_sql_integer(i64::MAX as u64), i64::MAX);
}

#[test]
fn sql_integer_wraps_large_ids() {
    assert_eq!(id_to_sql_integer(u64::MAX), -1);
    assert_eq!(id_to_sql_integer(1u64 << 63), i64::MIN);
    assert_eq!(id_from_sql_integer(-1), u64::MAX);
    assert_eq!(id_from_sql_integer(i64::MIN), 1u64 << 63);
}

#[test]
fn user_id_round_trips_through_storage() {
    for id in [0u64, 1, 1093034213999132743, u64::MAX, 1u64 << 63, (1u64 << 63) - 1] {
        let stored = UserIdWrapper(id).to_sql_integer();
        assert_eq!(UserIdWrapper::from_sql_integer(stored).0, id);
        let stored = GuildIdWrapper(id).to_sql_integer();
        assert_eq!(GuildIdWrapper::from_sql_integer(stored), GuildIdWrapper(id));
    }
}

#[test]
fn punishment_type_indices() {
    assert_eq!(PunishmentType::KICK.index(), 0);
    assert_eq!(PunishmentType::WARN.index(), 1);
    assert_eq!(PunishmentType::BAN.index(), 2);
    assert_eq!(PunishmentType::TIMEOUT.index(), 3);
    assert_eq!(PunishmentType::NOTE.index(), 4);
    for i in 0u8..5 {
        assert_eq!(PunishmentType::from_index(i).index(), i);
    }
    assert_eq!(PunishmentType::from_index(3), PunishmentType::TIMEOUT);
}

#[test]
fn duration_choices_lengths() {
    let cases = [
        (DurationChoices::Dur60Seconds, "60 seconds", 60u64),
        (DurationChoices::Dur5Minutes, "5 minutes", 300),
        (DurationChoices::Dur10Minutes, "10 minutes", 600),
        (DurationChoices::Dur1Hour, "1 hour", 3600),
        (DurationChoices::Dur1Day, "1 day", 86400),
        (DurationChoices::Dur1Week, "7 days", 604800),
        (DurationChoices::Dur1Month, "1 month", 2592000),
    ];
    for (choice, display, secs) in cases {
        let d = choice.to_duration();
        assert_eq!(d.display, display);
        assert_eq!(d.seconds, secs);
    }
}

#[test]
fn duration_end_times() {
    let d = Duration::new("1 hour", 3600);
    assert_eq!(d.display, "1 hour");
    assert_eq!(d.unix_time_after(1_700_000_000), 1_700_003_600);
    assert_eq!(d.unix_time_after(u64::MAX - 10), u64::MAX);
    let now = std::time::SystemTime::now().duration_since(std::time::UNIX_EPOCH).unwrap().as_secs();
    let end = d.to_unix_time_from_now();
    assert!(end >= now + 3600 && end <= now + 3600 + 5);
}

#[test]
fn recorded_punishment_reads_back() {
    let row = insert_row(
        0x0123_4567_89ab_cdef_0123_4567_89ab_cdef,
        &UserIdWrapper(u64::MAX - 3),
        &UserIdWrapper(77),
        PunishmentType::TIMEOUT,
        Some(Duration::new("5 minutes", 300)),
        Some("spam".to_string()),
        1_700_000_000,
    );
    assert_eq!(row.issued_to, -4);
    assert_eq!(row.kind, 3);
    assert_eq!(row.duration_sec, 300);
    assert_eq!(row.duration_name.as_deref(), Some("5 minutes"));
    assert!(!row.stale);
    let p = convert_to_struct(&row);
    assert_eq!(p.punishment_id, 0x0123_4567_89ab_cdef_0123_4567_89ab_cdef);
    assert_eq!(p.issued_to.0, u64::MAX - 3);
    assert_eq!(p.issued_by.0, 77);
    assert_eq!(p.punishment_type, PunishmentType::TIMEOUT);
    let d = p.duration.unwrap();
    assert_eq!((d.display.as_str(), d.seconds), ("5 minutes", 300));
    assert_eq!(p.time_sec, 1_700_000_000);
    assert_eq!(p.reason.as_deref(), Some("spam"));
    assert!(p.stale_time_sec.is_none() && p.stale_reason.is_none());
}

#[test]
fn zero_length_duration_reads_back_as_none() {
    let row = insert_row(1, &UserIdWrapper(1), &UserIdWrapper(2), PunishmentType::WARN, Some(Duration::new("never", 0)), None, 5);
    assert_eq!(row.duration_sec, 0);
    let p = convert_to_struct(&row);
    assert!(p.duration.is_none());
    assert!(p.reason.is_none());
    let row = insert_row(1, &UserIdWrapper(1), &UserIdWrapper(2), PunishmentType::KICK, None, None, 5);
    assert!(row.duration_name.is_none());
    assert_eq!(row.duration_sec, 0);
}

#[test]
fn stale_time_keeps_low_bits() {
    assert_eq!(stale_time_sec(1_700_000_000), 1_700_000_000);
    assert_eq!(stale_time_sec((1u64 << 32) + 5), 5);
}

#[test]
fn partial_columns() {
    let p = partial_from_columns(9, 2, Some("raid".to_string()), 12);
    assert_eq!(p.punishment_id, 9);
    assert_eq!(p.punishment_type, PunishmentType::BAN);
    assert_eq!(p.time_sec, 12);
    assert_eq!(p.reason.as_deref(), Some("raid"));
}

#[test]
fn decimal_numerals() {
    assert_eq!(decimal_string(0), "0");
    assert_eq!(decimal_string(7), "7");
    assert_eq!(decimal_string(10), "10");
    assert_eq!(decimal_string(1234567890), "1234567890");
    assert_eq!(decimal_string(u64::MAX), "18446744073709551615");
}

#[test]
fn ids_convert_to_serenity() {
    assert_eq!(UserIdWrapper(1093034213999132743).unwrap().get(), 1093034213999132743);
    assert_eq!(GuildIdWrapper(42).unwrap().get(), 42);
}
