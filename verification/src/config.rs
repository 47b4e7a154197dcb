use vstd::prelude::*;

use crate::text::decimal;

verus! {

/// The bot tokens. An empty token leaves its bot switched off.
pub struct Tokens {
    pub sentinel: String,
    pub factoids: String,
}

/// The channels that a guild has set up, each given by its id as text.
pub struct Channels {
    pub channel_report: Option<String>,
    pub channel_mod_msg: Option<String>,
    pub channel_appeals: Option<String>,
}

/// The configuration file: the tokens, and the channels of each guild,
/// keyed by the guild's id written in decimal.
pub struct Configuration {
    pub tokens: Tokens,
    pub guilds: Vec<(String, Channels)>,
}

/// The decimal text of ASCII digits, read as a number.
pub open spec fn digits_value(s: Seq<char>) -> nat
    decreases s.len(),
{
    if s.len() == 0 {
        0
    } else {
        10 * digits_value(s.drop_last()) + ((s.last() as nat) - 48) as nat
    }
}

pub open spec fn is_digit(c: char) -> bool {
    '0' <= c && c <= '9'
}

pub open spec fn all_digits(s: Seq<char>) -> bool {
    forall|i: int| 0 <= i < s.len() ==> is_digit(#[trigger] s[i])
}

/// What reading `s` as a `u64` gives: an optional `+`, then one or more
/// decimal digits whose value fits in 64 bits.
pub open spec fn parsed_u64(s: Seq<char>) -> Option<u64> {
    let body = if s.len() > 0 && s[0] == '+' {
        s.drop_first()
    } else {
        s
    };
    if body.len() > 0 && all_digits(body) && digits_value(body) <= u64::MAX {
        Some(digits_value(body) as u64)
    } else {
        None
    }
}

proof fn lemma_digits_value_prefix(s: Seq<char>, i: int)
    requires
        0 <= i < s.len(),
    ensures
        s.take(i + 1).drop_last() == s.take(i),
        s.take(i + 1).last() == s[i],
{
    assert(s.take(i + 1).drop_last() =~= s.take(i));
}

proof fn lemma_digits_value_grows(s: Seq<char>, i: int)
    requires
        0 <= i <= s.len(),
        all_digits(s),
    ensures
        digits_value(s.take(i)) <= digits_value(s),
    decreases s.len() - i,
{
    if i < s.len() {
        lemma_digits_value_grows(s, i + 1);
        lemma_digits_value_prefix(s, i);
        assert(is_digit(s[i]));
    } else {
        assert(s.take(i) =~= s);
    }
}

/// Reads `s` as a `u64` the way `str::parse::<u64>` does.
pub fn parse_u64(s: &str) -> (r: Option<u64>)
    ensures
        r == parsed_u64(s@),
{
    let n = s.unicode_len();
    let mut start: usize = 0;
    if n > 0 && s.get_char(0) == '+' {
        start = 1;
    }
    let ghost body = if s@.len() > 0 && s@[0] == '+' { s@.drop_first() } else { s@ };
    assert(body =~= s@.subrange(start as int, n as int));
    if start == n {
        return None;
    }
    let mut value: u64 = 0;
    let mut i: usize = start;
    while i < n
        invariant
            start <= i <= n,
            n == s@.len(),
            body == s@.subrange(start as int, n as int),
            body == (if s@.len() > 0 && s@[0] == '+' { s@.drop_first() } else { s@ }),
            body.len() > 0,
            all_digits(body.take(i - start)),
            value as nat == digits_value(body.take(i - start)),
        decreases n - i,
    {
        let c = s.get_char(i);
        let ghost k = i - start;
        proof {
            lemma_digits_value_prefix(body, k);
            assert(body[k] == c);
        }
        if !('0' <= c && c <= '9') {
            proof {
                assert(!is_digit(body[k]));
                assert(!all_digits(body));
            }
            return None;
        }
        let d = (c as u32 - 48) as u64;
        if value > 1844674407370955161 || (value == 1844674407370955161 && d > 5) {
            proof {
                assert(all_digits(body.take(k + 1)));
                assert(digits_value(body.take(k + 1)) == 10 * digits_value(body.take(k)) + d);
                if all_digits(body) {
                    lemma_digits_value_grows(body, k + 1);
                }
            }
            return None;
        }
        value = value * 10 + d;
        proof {
            assert(digits_value(body.take(k + 1)) == 10 * digits_value(body.take(k)) + d);
        }
        i = i + 1;
    }
    assert(body.take(n - start) =~= body);
    Some(value)
}

proof fn lemma_decimal_digits(n: nat)
    ensures
        all_digits(decimal(n)),
        decimal(n).len() > 0,
        digits_value(decimal(n)) == n,
    decreases n,
{
    let c = crate::text::digit_char(n % 10);
    assert(c as nat == 48 + n % 10);
    if n < 10 {
        assert(decimal(n).drop_last() =~= Seq::<char>::empty());
        assert(decimal(n).last() == c);
        assert(digits_value(decimal(n).drop_last()) == 0);
        assert(digits_value(decimal(n)) == 10 * digits_value(decimal(n).drop_last()) + ((c as nat) - 48) as nat);
    } else {
        lemma_decimal_digits(n / 10);
        let d = decimal(n / 10);
        assert(decimal(n) == d.push(crate::text::digit_char(n % 10)));
        assert(decimal(n).drop_last() =~= d);
        assert(decimal(n).last() == c);
        assert(digits_value(decimal(n)) == 10 * digits_value(d) + ((c as nat) - 48) as nat);
        assert(10 * (n / 10) + n % 10 == n);
        assert forall|i: int| 0 <= i < decimal(n).len() implies is_digit(#[trigger] decimal(n)[i]) by {
            if i < d.len() {
                assert(decimal(n)[i] == d[i]);
            }
        }
    }
}

/// Reading back the decimal numeral of a number gives the number.
pub proof fn law_parse_reads_decimal(n: u64)
    ensures
        parsed_u64(decimal(n as nat)) == Some(n),
{
    lemma_decimal_digits(n as nat);
    assert(is_digit(decimal(n as nat)[0]));
}

/// Entry `i` is the first entry of `gs` for the guild keyed `key`.
pub open spec fn first_entry_for(gs: Seq<(String, Channels)>, key: Seq<char>, i: int) -> bool {
    &&& 0 <= i < gs.len()
    &&& gs[i].0@ == key
    &&& forall|j: int| 0 <= j < i ==> (#[trigger] gs[j]).0@ != key
}

/// The channels of the guild keyed `key`: those of its first entry, if it
/// has one.
pub open spec fn configured_channels(gs: Seq<(String, Channels)>, key: Seq<char>) -> Option<Channels> {
    if exists|i: int| first_entry_for(gs, key, i) {
        Some(gs[choose|i: int| first_entry_for(gs, key, i)].1)
    } else {
        None
    }
}

proof fn lemma_first_entry_unique(gs: Seq<(String, Channels)>, key: Seq<char>, i: int, j: int)
    requires
        first_entry_for(gs, key, i),
        first_entry_for(gs, key, j),
    ensures
        i == j,
{
    if i < j {
        assert(gs[i].0@ != key);
    } else if j < i {
        assert(gs[j].0@ != key);
    }
}

/// The channels that the guild `guild_id` has set up, if it is listed.
pub fn channels_for_guild(config: &Configuration, guild_id: u64) -> (r: Option<&Channels>)
    ensures
        match r {
            Some(c) => configured_channels(config.guilds@, decimal(guild_id as nat)) == Some(*c),
            None => configured_channels(config.guilds@, decimal(guild_id as nat)) is None,
        },
{
    let key = crate::text::decimal_string(guild_id);
    let ghost gs = config.guilds@;
    let mut i: usize = 0;
    while i < config.guilds.len()
        invariant
            gs == config.guilds@,
            i <= gs.len(),
            key@ == decimal(guild_id as nat),
            forall|j: int| 0 <= j < i ==> (#[trigger] gs[j]).0@ != key@,
        decreases gs.len() - i,
    {
        if config.guilds[i].0 == key {
            proof {
                assert(first_entry_for(gs, key@, i as int));
                let c = choose|c: int| first_entry_for(gs, key@, c);
                lemma_first_entry_unique(gs, key@, i as int, c);
            }
            return Some(&config.guilds[i].1);
        }
        i = i + 1;
    }
    proof {
        if exists|c: int| first_entry_for(gs, key@, c) {
            let c = choose|c: int| first_entry_for(gs, key@, c);
            assert(gs[c].0@ != key@);
        }
    }
    None
}

/// The channel that reports from the guild `guild_id` go to, if one is set up.
pub fn report_channel(config: &Configuration, guild_id: u64) -> (r: Option<String>)
    ensures
        r.deep_view() == match configured_channels(config.guilds@, decimal(guild_id as nat)) {
            Some(c) => c.channel_report.deep_view(),
            None => None,
        },
{
    match channels_for_guild(config, guild_id) {
        Some(c) => crate::text::clone_opt_string(&c.channel_report),
        None => None,
    }
}

/// The channel that mod mail from the guild `guild_id` goes to, if one is set up.
pub fn modmail_channel(config: &Configuration, guild_id: u64) -> (r: Option<String>)
    ensures
        r.deep_view() == match configured_channels(config.guilds@, decimal(guild_id as nat)) {
            Some(c) => c.channel_mod_msg.deep_view(),
            None => None,
        },
{
    match channels_for_guild(config, guild_id) {
        Some(c) => crate::text::clone_opt_string(&c.channel_mod_msg),
        None => None,
    }
}

/// Which bots start: the moderation bot where its token is set, and the
/// factoids bot where both tokens are set.
pub struct StartupPlan {
    pub run_factoids: bool,
    pub run_sentinel: bool,
}

pub fn startup_plan(tokens: &Tokens) -> (r: StartupPlan)
    ensures
        r.run_sentinel == (tokens.sentinel@.len() > 0),
        r.run_factoids == (tokens.sentinel@.len() > 0 && tokens.factoids@.len() > 0),
{
    let sentinel = !tokens.sentinel.as_str().is_empty();
    let factoids = sentinel && !tokens.factoids.as_str().is_empty();
    StartupPlan { run_factoids: factoids, run_sentinel: sentinel }
}

/// The working directory: the one given, or the current directory.
pub fn working_dir_or_default(working_dir: Option<String>) -> (r: String)
    ensures
        r@ == match working_dir.deep_view() {
            Some(d) => d,
            None => "./"@,
        },
{
    match working_dir {
        Some(d) => d,
        None => String::from_str("./"),
    }
}

/// The working directory that was set, or the error that says none was.
pub fn get_working_dir(set: &Option<String>) -> (r: Result<String, String>)
    ensures
        match set.deep_view() {
            Some(d) => r matches Ok(x) && x@ == d,
            None => r matches Err(e) && e@ == "No working directory set."@,
        },
{
    match set {
        Some(d) => Ok(d.clone()),
        None => Err(String::from_str("No working directory set.")),
    }
}

/// The database file in `dir`: its name is appended to the directory as given.
pub fn database_path(dir: &str) -> (r: String)
    ensures
        r@ == dir@ + "database.sqlite"@,
{
    crate::text::join2(dir, "database.sqlite")
}

/// The configuration file in the folder `parent_folder`.
pub fn config_path(parent_folder: &str) -> (r: String)
    ensures
        r@ == parent_folder@ + "/config.toml"@,
{
    crate::text::join2(parent_folder, "/config.toml")
}

/// Whether loading the configuration writes out the default file and uses
/// it: where the file does not exist, or whether it exists could not be told.
pub fn config_needs_default(exists: Option<bool>) -> (r: bool)
    ensures
        r == (exists != Some(true)),
{
    match exists {
        Some(true) => false,
        _ => true,
    }
}

} // verus!
