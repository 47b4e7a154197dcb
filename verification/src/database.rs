use vstd::prelude::*;

use crate::wrapper::{id_of_sql_integer, sql_integer_of, UserIdWrapper};

verus! {

/// The kinds of punishment that the bot records.
#[allow(non_camel_case_types)]
#[derive(Clone, Copy, Debug, PartialEq, Eq, Structural)]
pub enum PunishmentType {
    KICK,
    WARN,
    BAN,
    TIMEOUT,
    NOTE,
}

/// The number under which a punishment type is stored.
pub open spec fn type_index(t: PunishmentType) -> u8 {
    match t {
        PunishmentType::KICK => 0,
        PunishmentType::WARN => 1,
        PunishmentType::BAN => 2,
        PunishmentType::TIMEOUT => 3,
        PunishmentType::NOTE => 4,
    }
}

/// The punishment type stored under `i`, for `i` below 5.
pub open spec fn type_of_index(i: u8) -> PunishmentType {
    if i == 0 {
        PunishmentType::KICK
    } else if i == 1 {
        PunishmentType::WARN
    } else if i == 2 {
        PunishmentType::BAN
    } else if i == 3 {
        PunishmentType::TIMEOUT
    } else {
        PunishmentType::NOTE
    }
}

impl PunishmentType {
    /// The number under which this type is stored.
    pub fn index(&self) -> (r: u8)
        ensures
            r == type_index(*self),
    {
        match self {
            PunishmentType::KICK => 0,
            PunishmentType::WARN => 1,
            PunishmentType::BAN => 2,
            PunishmentType::TIMEOUT => 3,
            PunishmentType::NOTE => 4,
        }
    }

    /// The type stored under `index`. Only 0 to 4 name a type.
    pub fn from_index(index: u8) -> (r: PunishmentType)
        requires
            index < 5,
        ensures
            r == type_of_index(index),
    {
        match index {
            0 => PunishmentType::KICK,
            1 => PunishmentType::WARN,
            2 => PunishmentType::BAN,
            3 => PunishmentType::TIMEOUT,
            _ => PunishmentType::NOTE,
        }
    }
}

/// Reading back the stored number of a type gives the type.
pub proof fn law_type_index_round_trip(t: PunishmentType)
    ensures
        type_index(t) < 5,
        type_of_index(type_index(t)) == t,
{
}

/// Every stored number below 5 is the number of the type it reads as.
pub proof fn law_index_type_round_trip(i: u8)
    requires
        i < 5,
    ensures
        type_index(type_of_index(i)) == i,
{
}

/// Two types share a stored number only if they are the same type.
pub proof fn law_type_index_injective(a: PunishmentType, b: PunishmentType)
    ensures
        type_index(a) == type_index(b) <==> a == b,
{
}

/// How long a timeout lasts: the text shown for it and its length in seconds.
#[derive(Clone, Debug)]
pub struct Duration {
    pub display: String,
    pub seconds: u64,
}

pub struct DurationView {
    pub display: Seq<char>,
    pub seconds: u64,
}

impl View for Duration {
    type V = DurationView;

    open spec fn view(&self) -> DurationView {
        DurationView { display: self.display@, seconds: self.seconds }
    }
}

pub open spec fn duration_view(d: Option<Duration>) -> Option<DurationView> {
    match d {
        Some(x) => Some(x@),
        None => None,
    }
}

/// The current time in whole seconds since the Unix epoch, as the system
/// clock gives it (`SystemTime::now().duration_since(UNIX_EPOCH)`); `None`
/// where the clock reads a time before the epoch. Nothing is stated of the
/// value: it depends on the clock.
#[verifier::external_body]
pub(crate) fn unix_now_secs() -> Option<u64> {
    match std::time::SystemTime::now().duration_since(std::time::UNIX_EPOCH) {
        Ok(d) => Some(d.as_secs()),
        Err(_) => None,
    }
}

/// The current Unix time in seconds; a clock that reads before the epoch
/// counts as the epoch itself.
pub(crate) fn now_or_epoch() -> u64 {
    match unix_now_secs() {
        Some(now) => now,
        None => 0,
    }
}

impl Duration {
    pub fn new(display: &str, seconds: u64) -> (r: Duration)
        ensures
            r.display@ == display@,
            r.seconds == seconds,
    {
        Duration { display: String::from_str(display), seconds }
    }

    /// A copy of this duration.
    pub fn duplicate(&self) -> (r: Duration)
        ensures
            r@ == self@,
    {
        Duration { display: self.display.clone(), seconds: self.seconds }
    }

    /// The Unix time, in seconds, at which a duration that starts at
    /// `now_secs` ends; the largest `u64` where that lies beyond it.
    pub fn unix_time_after(&self, now_secs: u64) -> (r: u64)
        ensures
            r as int == if now_secs + self.seconds <= u64::MAX {
                now_secs + self.seconds
            } else {
                u64::MAX as int
            },
    {
        now_secs.saturating_add(self.seconds)
    }

    /// The Unix time, in seconds, at which this duration ends if it starts
    /// now. The clock is read here: of the result it is only known that it
    /// lies at least the length of the duration after the epoch. A clock
    /// that reads before the epoch counts as the epoch.
    pub fn to_unix_time_from_now(&self) -> (r: u64)
        ensures
            r >= self.seconds,
    {
        let now = now_or_epoch();
        self.unix_time_after(now)
    }
}

/// The durations that a moderator can pick for a timeout.
#[derive(Clone, Copy, Debug, PartialEq, Eq, Structural)]
pub enum DurationChoices {
    Dur60Seconds,
    Dur5Minutes,
    Dur10Minutes,
    Dur1Hour,
    Dur1Day,
    Dur1Week,
    Dur1Month,
}

/// The length in seconds of each choice.
pub open spec fn choice_seconds(c: DurationChoices) -> u64 {
    match c {
        DurationChoices::Dur60Seconds => 60,
        DurationChoices::Dur5Minutes => 300,
        DurationChoices::Dur10Minutes => 600,
        DurationChoices::Dur1Hour => 3600,
        DurationChoices::Dur1Day => 86400,
        DurationChoices::Dur1Week => 604800,
        DurationChoices::Dur1Month => 2592000,
    }
}

/// The text shown for each choice.
pub open spec fn choice_display(c: DurationChoices) -> Seq<char> {
    match c {
        DurationChoices::Dur60Seconds => "60 seconds"@,
        DurationChoices::Dur5Minutes => "5 minutes"@,
        DurationChoices::Dur10Minutes => "10 minutes"@,
        DurationChoices::Dur1Hour => "1 hour"@,
        DurationChoices::Dur1Day => "1 day"@,
        DurationChoices::Dur1Week => "7 days"@,
        DurationChoices::Dur1Month => "1 month"@,
    }
}

impl DurationChoices {
    /// The duration that this choice stands for.
    pub fn to_duration(&self) -> (r: Duration)
        ensures
            r.display@ == choice_display(*self),
            r.seconds == choice_seconds(*self),
    {
        match self {
            DurationChoices::Dur60Seconds => Duration::new("60 seconds", 60),
            DurationChoices::Dur5Minutes => Duration::new("5 minutes", 5 * 60),
            DurationChoices::Dur10Minutes => Duration::new("10 minutes", 10 * 60),
            DurationChoices::Dur1Hour => Duration::new("1 hour", 60 * 60),
            DurationChoices::Dur1Day => Duration::new("1 day", 24 * 60 * 60),
            DurationChoices::Dur1Week => Duration::new("7 days", 7 * 24 * 60 * 60),
            DurationChoices::Dur1Month => Duration::new("1 month", 30 * 24 * 60 * 60),
        }
    }
}

/// A recorded punishment. The id is the 128-bit value of its UUID.
#[derive(Debug)]
pub struct Punishment {
    pub punishment_id: u128,
    pub issued_to: UserIdWrapper,
    pub issued_by: UserIdWrapper,
    pub punishment_type: PunishmentType,
    pub duration: Option<Duration>,
    pub stale: bool,
    pub stale_time_sec: Option<u32>,
    pub stale_reason: Option<String>,
    pub time_sec: u64,
    pub reason: Option<String>,
}

/// The fields of a punishment that a search lists.
pub struct PartialPunishment {
    pub punishment_id: u128,
    pub punishment_type: PunishmentType,
    pub time_sec: u64,
    pub reason: Option<String>,
}

/// A row of the punishment table, column by column, as SQLite holds it.
pub struct PunishmentRow {
    pub id: u128,
    pub issued_to: i64,
    pub issued_by: i64,
    pub kind: u8,
    pub duration_name: Option<String>,
    pub duration_sec: i64,
    pub stale: bool,
    pub stale_time_sec: Option<u32>,
    pub stale_reason: Option<String>,
    pub time_sec: i64,
    pub reason: Option<String>,
}

/// What a row must hold to be read as a punishment: a known type, and a
/// duration name wherever a duration is set.
pub open spec fn row_readable(row: &PunishmentRow) -> bool {
    &&& row.kind < 5
    &&& row.duration_sec != 0 ==> row.duration_name is Some
}

/// Whether `index` names a punishment type.
pub fn is_type_index(index: u8) -> (r: bool)
    ensures
        r == (index < 5),
{
    index < 5
}

/// Whether `row` can be read as a punishment.
pub fn is_readable_row(row: &PunishmentRow) -> (r: bool)
    ensures
        r == row_readable(row),
{
    row.kind < 5 && (row.duration_sec == 0 || row.duration_name.is_some())
}

/// `p` is what `row` reads as: every column taken as it is stored, ids and
/// times read back from their signed form, and a duration of zero seconds
/// read as no duration.
pub open spec fn read_from_row(p: Punishment, row: PunishmentRow) -> bool {
    &&& p.punishment_id == row.id
    &&& p.issued_to.0 as int == id_of_sql_integer(row.issued_to)
    &&& p.issued_by.0 as int == id_of_sql_integer(row.issued_by)
    &&& p.punishment_type == type_of_index(row.kind)
    &&& row.duration_sec == 0 ==> p.duration is None
    &&& row.duration_sec != 0 ==> p.duration is Some && p.duration->0.display@ == row.duration_name->0@
        && p.duration->0.seconds as int == id_of_sql_integer(row.duration_sec)
    &&& p.stale == row.stale
    &&& p.stale_time_sec == row.stale_time_sec
    &&& p.stale_reason.deep_view() == row.stale_reason.deep_view()
    &&& p.time_sec as int == id_of_sql_integer(row.time_sec)
    &&& p.reason.deep_view() == row.reason.deep_view()
}

/// `row` is the row that recording a punishment with these values writes.
pub open spec fn written_row(
    row: PunishmentRow,
    id: u128,
    issued_to: u64,
    issued_by: u64,
    punishment_type: PunishmentType,
    duration: Option<DurationView>,
    reason: Option<Seq<char>>,
    now_secs: u64,
) -> bool {
    &&& row.id == id
    &&& row.issued_to as int == sql_integer_of(issued_to)
    &&& row.issued_by as int == sql_integer_of(issued_by)
    &&& row.kind == type_index(punishment_type)
    &&& match duration {
        Some(d) => row.duration_name.deep_view() == Some(d.display) && row.duration_sec as int
            == sql_integer_of(d.seconds),
        None => row.duration_name is None && row.duration_sec == 0,
    }
    &&& !row.stale
    &&& row.stale_time_sec is None
    &&& row.stale_reason is None
    &&& row.time_sec as int == sql_integer_of(now_secs)
    &&& row.reason.deep_view() == reason
}

/// Reads a row of the punishment table as a punishment. A duration of zero
/// seconds stands for no duration.
pub fn convert_to_struct(row: &PunishmentRow) -> (p: Punishment)
    requires
        row_readable(row),
    ensures
        read_from_row(p, *row),
{
    let duration = if row.duration_sec == 0 {
        None
    } else {
        let name = match &row.duration_name {
            Some(n) => n.clone(),
            None => String::new(),
        };
        Some(Duration { display: name, seconds: crate::wrapper::id_from_sql_integer(row.duration_sec) })
    };
    Punishment {
        punishment_id: row.id,
        issued_to: UserIdWrapper::from_sql_integer(row.issued_to),
        issued_by: UserIdWrapper::from_sql_integer(row.issued_by),
        punishment_type: PunishmentType::from_index(row.kind),
        duration,
        stale: row.stale,
        stale_time_sec: row.stale_time_sec,
        stale_reason: crate::text::clone_opt_string(&row.stale_reason),
        time_sec: crate::wrapper::id_from_sql_integer(row.time_sec),
        reason: crate::text::clone_opt_string(&row.reason),
    }
}

/// The row that recording a punishment writes: a fresh entry that is not
/// stale, with no duration stored as zero seconds and the time of issue.
pub fn insert_row(
    id: u128,
    issued_to: &UserIdWrapper,
    issued_by: &UserIdWrapper,
    punishment_type: PunishmentType,
    duration: Option<Duration>,
    reason: Option<String>,
    now_secs: u64,
) -> (row: PunishmentRow)
    ensures
        written_row(row, id, issued_to.0, issued_by.0, punishment_type, duration_view(duration), reason.deep_view(), now_secs),
{
    let (duration_name, duration_sec) = match duration {
        Some(d) => (Some(d.display), crate::wrapper::id_to_sql_integer(d.seconds)),
        None => (None, 0i64),
    };
    PunishmentRow {
        id,
        issued_to: issued_to.to_sql_integer(),
        issued_by: issued_by.to_sql_integer(),
        kind: punishment_type.index(),
        duration_name,
        duration_sec,
        stale: false,
        stale_time_sec: None,
        stale_reason: None,
        time_sec: crate::wrapper::id_to_sql_integer(now_secs),
        reason,
    }
}

/// The stale time that marking a punishment stale stores: the current Unix
/// time cut down to its low 32 bits.
pub fn stale_time_sec(now_secs: u64) -> (r: u32)
    ensures
        r as int == now_secs as int % 0x1_0000_0000,
{
    let r = #[verifier::truncate] (now_secs as u32);
    assert(r as int == now_secs as int % 0x1_0000_0000) by (bit_vector)
        requires r == #[verifier::truncate] (now_secs as u32);
    r
}

/// Reads the columns that a search selects as a listed punishment.
pub fn partial_from_columns(id: u128, kind: u8, reason: Option<String>, time_sec: i64) -> (p: PartialPunishment)
    requires
        kind < 5,
    ensures
        p.punishment_id == id,
        p.punishment_type == type_of_index(kind),
        p.reason.deep_view() == reason.deep_view(),
        p.time_sec as int == id_of_sql_integer(time_sec),
{
    PartialPunishment {
        punishment_id: id,
        punishment_type: PunishmentType::from_index(kind),
        reason,
        time_sec: crate::wrapper::id_from_sql_integer(time_sec),
    }
}

/// A recorded punishment reads back as it was recorded: the same id, users,
/// type, reason and time of issue, not stale, and the same duration, except
/// that a duration of zero seconds reads back as none.
pub proof fn law_recorded_punishment_reads_back(
    row: PunishmentRow,
    p: Punishment,
    id: u128,
    issued_to: u64,
    issued_by: u64,
    punishment_type: PunishmentType,
    duration: Option<DurationView>,
    reason: Option<Seq<char>>,
    now_secs: u64,
)
    requires
        written_row(row, id, issued_to, issued_by, punishment_type, duration, reason, now_secs),
        read_from_row(p, row),
    ensures
        row_readable(&row),
        p.punishment_id == id,
        p.issued_to.0 == issued_to,
        p.issued_by.0 == issued_by,
        p.punishment_type == punishment_type,
        duration_view(p.duration) == match duration {
            Some(d) => if d.seconds == 0 { None } else { Some(d) },
            None => None,
        },
        !p.stale,
        p.stale_time_sec is None,
        p.stale_reason is None,
        p.time_sec == now_secs,
        p.reason.deep_view() == reason,
{
    crate::wrapper::law_id_storage_round_trip(issued_to);
    crate::wrapper::law_id_storage_round_trip(issued_by);
    crate::wrapper::law_id_storage_round_trip(now_secs);
    match duration {
        Some(d) => {
            crate::wrapper::law_id_storage_round_trip(d.seconds);
        },
        None => {},
    }
    assert(p.stale_reason.deep_view() is None);
}

/// Reading a row keeps what the row says of the punishment's state: a row
/// marked stale reads as stale, with its stale time and stale reason, and
/// every other column reads as it is stored, whoever wrote the row.
pub proof fn law_read_keeps_columns(p: Punishment, row: PunishmentRow)
    requires
        read_from_row(p, row),
    ensures
        p.stale == row.stale,
        row.stale ==> p.stale,
        p.stale_time_sec == row.stale_time_sec,
        p.stale_reason.deep_view() == row.stale_reason.deep_view(),
        p.reason.deep_view() == row.reason.deep_view(),
        p.punishment_id == row.id,
        type_index(p.punishment_type) == row.kind || row.kind >= 5,
        sql_integer_of(p.issued_to.0) == row.issued_to,
        sql_integer_of(p.issued_by.0) == row.issued_by,
        sql_integer_of(p.time_sec) == row.time_sec,
        row.duration_sec == 0 <==> p.duration is None,
{
    crate::wrapper::law_sql_integer_round_trip(row.issued_to);
    crate::wrapper::law_sql_integer_round_trip(row.issued_by);
    crate::wrapper::law_sql_integer_round_trip(row.time_sec);
}

/// The timeout lengths are what their names say: a minute is 60 seconds,
/// an hour 60 minutes, a day 24 hours, a week 7 days and a month 30 days.
pub proof fn law_choice_lengths()
    ensures
        choice_seconds(DurationChoices::Dur60Seconds) == 60,
        choice_seconds(DurationChoices::Dur5Minutes) == 5 * choice_seconds(DurationChoices::Dur60Seconds),
        choice_seconds(DurationChoices::Dur10Minutes) == 10 * choice_seconds(DurationChoices::Dur60Seconds),
        choice_seconds(DurationChoices::Dur1Hour) == 60 * choice_seconds(DurationChoices::Dur60Seconds),
        choice_seconds(DurationChoices::Dur1Day) == 24 * choice_seconds(DurationChoices::Dur1Hour),
        choice_seconds(DurationChoices::Dur1Week) == 7 * choice_seconds(DurationChoices::Dur1Day),
        choice_seconds(DurationChoices::Dur1Month) == 30 * choice_seconds(DurationChoices::Dur1Day),
{
}

/// A duration that starts at `now_secs` ends exactly its length later,
/// unless that lies beyond the largest `u64`; it never ends before it starts.
pub proof fn law_end_is_start_plus_length(now_secs: u64, seconds: u64, end: u64)
    requires
        end as int == if now_secs + seconds <= u64::MAX { now_secs + seconds } else { u64::MAX as int },
    ensures
        now_secs + seconds <= u64::MAX ==> end - now_secs == seconds,
        end >= now_secs,
        end >= seconds,
{
}

} // verus!
