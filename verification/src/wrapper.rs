use vstd::prelude::*;

verus! {

/// The id of a Discord user, as the bot stores it.
#[derive(Debug)]
pub struct UserIdWrapper(pub u64);

/// The id of a Discord guild, as the bot stores it.
#[derive(Clone, Copy, Debug, PartialEq, Eq, Structural, Hash)]
pub struct GuildIdWrapper(pub u64);

#[verifier::external_type_specification]
#[verifier::external_body]
pub struct ExUserId(poise::serenity_prelude::UserId);

#[verifier::external_type_specification]
#[verifier::external_body]
pub struct ExGuildId(poise::serenity_prelude::GuildId);

/// The serenity user id with the number `id`.
pub uninterp spec fn serenity_user_id(id: u64) -> poise::serenity_prelude::UserId;

/// The serenity guild id with the number `id`.
pub uninterp spec fn serenity_guild_id(id: u64) -> poise::serenity_prelude::GuildId;

/// Builds serenity's user id from its number with `UserId::new`, which
/// panics on zero. The contract names the result and says no more of it.
#[verifier::external_body]
fn new_user_id(id: u64) -> (r: poise::serenity_prelude::UserId)
    requires
        id != 0,
    ensures
        r == serenity_user_id(id),
{
    poise::serenity_prelude::UserId::new(id)
}

/// Builds serenity's guild id from its number with `GuildId::new`, which
/// panics on zero. The contract names the result and says no more of it.
#[verifier::external_body]
fn new_guild_id(id: u64) -> (r: poise::serenity_prelude::GuildId)
    requires
        id != 0,
    ensures
        r == serenity_guild_id(id),
{
    poise::serenity_prelude::GuildId::new(id)
}

/// The SQLite INTEGER that stands for an id: the same 64 bits read as a
/// two's-complement signed number.
pub open spec fn sql_integer_of(id: u64) -> int {
    if id <= i64::MAX as u64 {
        id as int
    } else {
        id as int - 0x1_0000_0000_0000_0000int
    }
}

/// The id that a SQLite INTEGER stands for: the same 64 bits read as unsigned.
pub open spec fn id_of_sql_integer(v: i64) -> int {
    if v >= 0 {
        v as int
    } else {
        v as int + 0x1_0000_0000_0000_0000int
    }
}

/// Reinterprets the bits of an id as a signed SQLite INTEGER.
pub fn id_to_sql_integer(id: u64) -> (v: i64)
    ensures
        v as int == sql_integer_of(id),
{
    let v = #[verifier::truncate] (id as i64);
    assert(id <= 0x7fff_ffff_ffff_ffffu64 ==> v as int == id as int) by (bit_vector)
        requires v == #[verifier::truncate] (id as i64);
    assert(id > 0x7fff_ffff_ffff_ffffu64 ==> v as int == id as int - 0x1_0000_0000_0000_0000int) by (bit_vector)
        requires v == #[verifier::truncate] (id as i64);
    v
}

/// Reinterprets the bits of a SQLite INTEGER as an id.
pub fn id_from_sql_integer(v: i64) -> (id: u64)
    ensures
        id as int == id_of_sql_integer(v),
{
    let id = #[verifier::truncate] (v as u64);
    assert(v >= 0 ==> id as int == v as int) by (bit_vector)
        requires id == #[verifier::truncate] (v as u64);
    assert(v < 0 ==> id as int == v as int + 0x1_0000_0000_0000_0000int) by (bit_vector)
        requires id == #[verifier::truncate] (v as u64);
    id
}

impl UserIdWrapper {
    /// This id as serenity's user id. Discord ids are never zero.
    pub fn unwrap(self) -> (r: poise::serenity_prelude::UserId)
        requires
            self.0 != 0,
        ensures
            r == serenity_user_id(self.0),
    {
        new_user_id(self.0)
    }

    /// The SQLite INTEGER under which this id is stored.
    pub fn to_sql_integer(&self) -> (v: i64)
        ensures
            v as int == sql_integer_of(self.0),
    {
        id_to_sql_integer(self.0)
    }

    /// The id that a stored SQLite INTEGER stands for.
    pub fn from_sql_integer(v: i64) -> (r: UserIdWrapper)
        ensures
            r.0 as int == id_of_sql_integer(v),
    {
        UserIdWrapper(id_from_sql_integer(v))
    }
}

impl GuildIdWrapper {
    /// This id as serenity's guild id. Discord ids are never zero.
    pub fn unwrap(self) -> (r: poise::serenity_prelude::GuildId)
        requires
            self.0 != 0,
        ensures
            r == serenity_guild_id(self.0),
    {
        new_guild_id(self.0)
    }

    /// The SQLite INTEGER under which this id is stored.
    pub fn to_sql_integer(&self) -> (v: i64)
        ensures
            v as int == sql_integer_of(self.0),
    {
        id_to_sql_integer(self.0)
    }

    /// The id that a stored SQLite INTEGER stands for.
    pub fn from_sql_integer(v: i64) -> (r: GuildIdWrapper)
        ensures
            r.0 as int == id_of_sql_integer(v),
    {
        GuildIdWrapper(id_from_sql_integer(v))
    }
}

/// An id read back from the SQLite INTEGER it was stored under is the same id.
pub proof fn law_id_storage_round_trip(id: u64)
    ensures
        i64::MIN <= sql_integer_of(id) <= i64::MAX,
        id_of_sql_integer(sql_integer_of(id) as i64) == id,
{
}

/// Every SQLite INTEGER is the stored form of exactly the id it reads as.
pub proof fn law_sql_integer_round_trip(v: i64)
    ensures
        0 <= id_of_sql_integer(v) <= u64::MAX,
        sql_integer_of(id_of_sql_integer(v) as u64) == v,
{
}

} // verus!
