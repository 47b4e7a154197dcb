use vstd::prelude::*;

use crate::wrapper::GuildIdWrapper;

verus! {

/// A factoid: a canned message that a guild can post with a command.
#[derive(Clone, Debug)]
pub struct FactoidData {
    pub display_name: String,
    pub factoid_name: String,
    pub description: Option<String>,
    pub components: String,
}

/// What a factoid holds, as text.
pub struct FactoidView {
    pub display_name: Seq<char>,
    pub factoid_name: Seq<char>,
    pub description: Option<Seq<char>>,
    pub components: Seq<char>,
}

impl View for FactoidData {
    type V = FactoidView;

    open spec fn view(&self) -> FactoidView {
        FactoidView {
            display_name: self.display_name@,
            factoid_name: self.factoid_name@,
            description: self.description.deep_view(),
            components: self.components@,
        }
    }
}

impl FactoidData {
    /// A copy of this factoid.
    pub fn duplicate(&self) -> (r: FactoidData)
        ensures
            r@ == self@,
    {
        FactoidData {
            display_name: self.display_name.clone(),
            factoid_name: self.factoid_name.clone(),
            description: crate::text::clone_opt_string(&self.description),
            components: self.components.clone(),
        }
    }

    /// The same factoid with its components replaced.
    pub fn with_components(self, components: String) -> (r: FactoidData)
        ensures
            r@ == (FactoidView { components: components@, ..self@ }),
    {
        FactoidData { components, ..self }
    }
}

/// The key under which the cache files a factoid: its guild and its id.
pub type FactoidKey = (u64, Seq<char>);

pub open spec fn entry_key(e: (GuildIdWrapper, FactoidData)) -> FactoidKey {
    (e.0.0, e.1.factoid_name@)
}

/// The map that a list of (guild, factoid) pairs gives when each is inserted
/// in turn, a later pair replacing an earlier one with the same key.
pub open spec fn rows_map(s: Seq<(GuildIdWrapper, FactoidData)>) -> Map<FactoidKey, FactoidView>
    decreases s.len(),
{
    if s.len() == 0 {
        Map::empty()
    } else {
        rows_map(s.drop_last()).insert(entry_key(s.last()), s.last().1@)
    }
}

pub open spec fn map_get(m: Map<FactoidKey, FactoidView>, k: FactoidKey) -> Option<FactoidView> {
    if m.dom().contains(k) {
        Some(m[k])
    } else {
        None
    }
}

/// The factoids that a guild has in the cache.
pub open spec fn guild_factoids(m: Map<FactoidKey, FactoidView>, guild: u64) -> Set<FactoidView> {
    Set::new(|f: FactoidView| exists|k: FactoidKey| k.0 == guild && #[trigger] m.dom().contains(k) && m[k] == f)
}

/// The in-memory copy of the factoid table, keyed by guild and factoid id.
pub struct FactoidCache {
    entries: Vec<(GuildIdWrapper, FactoidData)>,
}

pub open spec fn keys_unique(s: Seq<(GuildIdWrapper, FactoidData)>) -> bool {
    forall|i: int, j: int|
        0 <= i < s.len() && 0 <= j < s.len() && i != j ==> entry_key(#[trigger] s[i]) != entry_key(
            #[trigger] s[j],
        )
}

proof fn lemma_rows_map_dom(s: Seq<(GuildIdWrapper, FactoidData)>)
    ensures
        forall|i: int| 0 <= i < s.len() ==> rows_map(s).dom().contains(#[trigger] entry_key(s[i])),
        forall|k: FactoidKey|
            #[trigger] rows_map(s).dom().contains(k) ==> exists|i: int|
                0 <= i < s.len() && entry_key(s[i]) == k,
    decreases s.len(),
{
    if s.len() > 0 {
        let t = s.drop_last();
        lemma_rows_map_dom(t);
        assert forall|i: int| 0 <= i < s.len() implies rows_map(s).dom().contains(
            #[trigger] entry_key(s[i]),
        ) by {
            if i < s.len() - 1 {
                assert(s[i] == t[i]);
            }
        }
        assert forall|k: FactoidKey| #[trigger] rows_map(s).dom().contains(k) implies exists|i: int|
            0 <= i < s.len() && entry_key(s[i]) == k by {
            if k != entry_key(s.last()) {
                assert(rows_map(t).dom().contains(k));
                let i = choose|i: int| 0 <= i < t.len() && entry_key(t[i]) == k;
                assert(s[i] == t[i]);
                assert(entry_key(s[i]) == k);
            } else {
                assert(entry_key(s[s.len() - 1]) == k);
            }
        }
    }
}

proof fn lemma_rows_map_value(s: Seq<(GuildIdWrapper, FactoidData)>)
    requires
        keys_unique(s),
    ensures
        forall|i: int| 0 <= i < s.len() ==> rows_map(s)[#[trigger] entry_key(s[i])] == s[i].1@,
    decreases s.len(),
{
    if s.len() > 0 {
        let t = s.drop_last();
        assert(keys_unique(t)) by {
            assert forall|i: int, j: int|
                0 <= i < t.len() && 0 <= j < t.len() && i != j implies entry_key(#[trigger] t[i])
                != entry_key(#[trigger] t[j]) by {
                assert(t[i] == s[i] && t[j] == s[j]);
            }
        }
        lemma_rows_map_value(t);
        assert forall|i: int| 0 <= i < s.len() implies rows_map(s)[#[trigger] entry_key(s[i])]
            == s[i].1@ by {
            if i < s.len() - 1 {
                assert(s[i] == t[i]);
                assert(entry_key(s[i]) != entry_key(s[s.len() - 1]));
            }
        }
    }
}

/// Replacing the entry at `i` by one with the same key replaces that key's value.
proof fn lemma_rows_map_update(
    s: Seq<(GuildIdWrapper, FactoidData)>,
    i: int,
    e: (GuildIdWrapper, FactoidData),
)
    requires
        keys_unique(s),
        0 <= i < s.len(),
        entry_key(e) == entry_key(s[i]),
    ensures
        keys_unique(s.update(i, e)),
        rows_map(s.update(i, e)) == rows_map(s).insert(entry_key(e), e.1@),
{
    let u = s.update(i, e);
    assert(keys_unique(u)) by {
        assert forall|a: int, b: int|
            0 <= a < u.len() && 0 <= b < u.len() && a != b implies entry_key(#[trigger] u[a])
            != entry_key(#[trigger] u[b]) by {
            assert(entry_key(u[a]) == entry_key(s[a]));
            assert(entry_key(u[b]) == entry_key(s[b]));
        }
    }
    lemma_rows_map_dom(s);
    lemma_rows_map_dom(u);
    lemma_rows_map_value(s);
    lemma_rows_map_value(u);
    let m = rows_map(s).insert(entry_key(e), e.1@);
    assert forall|k: FactoidKey| #[trigger] m.dom().contains(k) implies rows_map(u).dom().contains(k) by {
        if k != entry_key(e) {
            let j = choose|j: int| 0 <= j < s.len() && entry_key(s[j]) == k;
            assert(entry_key(u[j]) == k);
        } else {
            assert(entry_key(u[i]) == k);
        }
    }
    assert forall|k: FactoidKey| #[trigger] rows_map(u).dom().contains(k) implies m.dom().contains(k)
        && rows_map(u)[k] == m[k] by {
        let j = choose|j: int| 0 <= j < u.len() && entry_key(u[j]) == k;
        assert(entry_key(s[j]) == k);
        if j != i {
            assert(u[j] == s[j]);
        }
    }
    assert(rows_map(u) =~= m);
}

/// Removing the entry at `i` removes its key.
proof fn lemma_rows_map_remove(s: Seq<(GuildIdWrapper, FactoidData)>, i: int)
    requires
        keys_unique(s),
        0 <= i < s.len(),
    ensures
        keys_unique(s.remove(i)),
        rows_map(s.remove(i)) == rows_map(s).remove(entry_key(s[i])),
{
    let u = s.remove(i);
    let k0 = entry_key(s[i]);
    assert(keys_unique(u)) by {
        assert forall|a: int, b: int|
            0 <= a < u.len() && 0 <= b < u.len() && a != b implies entry_key(#[trigger] u[a])
            != entry_key(#[trigger] u[b]) by {
            let a2 = if a < i { a } else { a + 1 };
            let b2 = if b < i { b } else { b + 1 };
            assert(u[a] == s[a2] && u[b] == s[b2]);
        }
    }
    lemma_rows_map_dom(s);
    lemma_rows_map_dom(u);
    lemma_rows_map_value(s);
    lemma_rows_map_value(u);
    let m = rows_map(s).remove(k0);
    assert forall|k: FactoidKey| #[trigger] m.dom().contains(k) implies rows_map(u).dom().contains(k) by {
        let j = choose|j: int| 0 <= j < s.len() && entry_key(s[j]) == k;
        assert(j != i);
        let j2 = if j < i { j } else { j - 1 };
        assert(u[j2] == s[j]);
    }
    assert forall|k: FactoidKey| #[trigger] rows_map(u).dom().contains(k) implies m.dom().contains(k)
        && rows_map(u)[k] == m[k] by {
        let j = choose|j: int| 0 <= j < u.len() && entry_key(u[j]) == k;
        let j2 = if j < i { j } else { j + 1 };
        assert(u[j] == s[j2]);
        assert(j2 != i);
    }
    assert(rows_map(u) =~= m);
}

/// Whatever rows are loaded, each factoid is filed under its own id.
pub proof fn law_rows_filed_under_own_id(s: Seq<(GuildIdWrapper, FactoidData)>)
    ensures
        forall|k: FactoidKey| #[trigger] rows_map(s).dom().contains(k) ==> rows_map(s)[k].factoid_name == k.1,
    decreases s.len(),
{
    if s.len() > 0 {
        law_rows_filed_under_own_id(s.drop_last());
    }
}

impl View for FactoidCache {
    type V = Map<FactoidKey, FactoidView>;

    closed spec fn view(&self) -> Map<FactoidKey, FactoidView> {
        rows_map(self.entries@)
    }
}

impl FactoidCache {
    /// No two cached factoids share a guild and an id.
    #[verifier::type_invariant]
    spec fn wf(self) -> bool {
        keys_unique(self.entries@)
    }

    /// Every cached factoid is filed under its own id.
    pub proof fn law_factoids_filed_under_own_id(&self)
        ensures
            forall|k: FactoidKey| #[trigger] self@.dom().contains(k) ==> self@[k].factoid_name == k.1,
    {
        law_rows_filed_under_own_id(self.entries@);
    }

    /// An empty cache.
    pub fn new() -> (c: FactoidCache)
        ensures
            c@ == Map::<FactoidKey, FactoidView>::empty(),
    {
        FactoidCache { entries: Vec::new() }
    }

    fn find(&self, guild: GuildIdWrapper, name: &String) -> (r: Option<usize>)
        ensures
            match r {
                Some(i) => i < self.entries@.len() && entry_key(self.entries@[i as int]) == (
                    guild.0,
                    name@,
                ),
                None => !self@.dom().contains((guild.0, name@)),
            },
    {
        let mut i: usize = 0;
        while i < self.entries.len()
            invariant
                i <= self.entries@.len(),
                forall|j: int| 0 <= j < i ==> entry_key(#[trigger] self.entries@[j]) != (guild.0, name@),
            decreases self.entries@.len() - i,
        {
            let e = &self.entries[i];
            if e.0 == guild && e.1.factoid_name == *name {
                return Some(i);
            }
            i = i + 1;
        }
        proof {
            lemma_rows_map_dom(self.entries@);
        }
        None
    }

    /// Files `data` under its guild and its id, replacing what was there.
    pub fn insert(&mut self, guild: GuildIdWrapper, data: FactoidData)
        ensures
            final(self)@ == old(self)@.insert((guild.0, data.factoid_name@), data@),
    {
        proof {
            use_type_invariant(&*self);
        }
        let ghost e = (guild, data);
        match self.find(guild, &data.factoid_name) {
            Some(i) => {
                proof {
                    lemma_rows_map_update(self.entries@, i as int, e);
                }
                let mut entries = Vec::new();
                std::mem::swap(&mut entries, &mut self.entries);
                entries.set(i, (guild, data));
                self.entries = entries;
            },
            None => {
                proof {
                    lemma_rows_map_dom(self.entries@);
                    let s = self.entries@;
                    let u = s.push(e);
                    assert(u.drop_last() == s);
                    assert forall|a: int, b: int|
                        0 <= a < u.len() && 0 <= b < u.len() && a != b implies entry_key(
                        #[trigger] u[a],
                    ) != entry_key(#[trigger] u[b]) by {
                        if a < s.len() && b < s.len() {
                            assert(u[a] == s[a] && u[b] == s[b]);
                        } else if a < s.len() {
                            assert(u[a] == s[a]);
                        } else {
                            assert(u[b] == s[b]);
                        }
                    }
                }
                let mut entries = Vec::new();
                std::mem::swap(&mut entries, &mut self.entries);
                entries.push((guild, data));
                self.entries = entries;
            },
        }
    }

    /// Drops the factoid filed under `guild` and `name`, if any.
    pub fn remove(&mut self, guild: GuildIdWrapper, name: &String)
        ensures
            final(self)@ == old(self)@.remove((guild.0, name@)),
    {
        proof {
            use_type_invariant(&*self);
        }
        match self.find(guild, name) {
            Some(i) => {
                proof {
                    lemma_rows_map_remove(self.entries@, i as int);
                }
                let mut entries = Vec::new();
                std::mem::swap(&mut entries, &mut self.entries);
                entries.remove(i);
                self.entries = entries;
            },
            None => {
                assert(self@.remove((guild.0, name@)) =~= self@);
            },
        }
    }

    /// Empties the cache.
    pub fn clear(&mut self)
        ensures
            final(self)@ == Map::<FactoidKey, FactoidView>::empty(),
    {
        self.entries = Vec::new();
    }
}


/// `fs` lists the factoids of `guild` in `m`, each once, in some order.
pub open spec fn lists_guild_factoids(fs: Seq<FactoidView>, m: Map<FactoidKey, FactoidView>, guild: u64) -> bool {
    &&& forall|a: int| 0 <= a < fs.len() ==> guild_factoids(m, guild).contains(#[trigger] fs[a])
    &&& forall|f: FactoidView| #[trigger] guild_factoids(m, guild).contains(f) ==> exists|a: int|
        0 <= a < fs.len() && fs[a] == f
    &&& forall|a: int, b: int|
        0 <= a < fs.len() && 0 <= b < fs.len() && a != b ==> (#[trigger] fs[a]).factoid_name != (
        #[trigger] fs[b]).factoid_name
}

pub open spec fn views_of(fs: Seq<FactoidData>) -> Seq<FactoidView> {
    fs.map_values(|f: FactoidData| f@)
}

/// Refills the cache from the rows read out of the factoid table. The cache
/// is emptied first; where reading the table failed it stays empty and the
/// error is handed on.
pub fn load_from_database(
    cache: &mut FactoidCache,
    rows: Result<Vec<(GuildIdWrapper, FactoidData)>, String>,
) -> (r: Result<(), String>)
    ensures
        match rows {
            Ok(rs) => r is Ok && final(cache)@ == rows_map(rs@),
            Err(e) => r == Err::<(), String>(e) && final(cache)@ == Map::<FactoidKey, FactoidView>::empty(),
        },
{
    cache.clear();
    match rows {
        Ok(rs) => {
            let mut i: usize = 0;
            while i < rs.len()
                invariant
                    i <= rs@.len(),
                    cache@ == rows_map(rs@.take(i as int)),
                decreases rs@.len() - i,
            {
                let e = &rs[i];
                proof {
                    assert(rs@.take(i + 1).drop_last() =~= rs@.take(i as int));
                }
                cache.insert(e.0, e.1.duplicate());
                i = i + 1;
            }
            assert(rs@.take(rs@.len() as int) =~= rs@);
            Ok(())
        },
        Err(e) => Err(e),
    }
}


/// Whether `guild` has a factoid with the id `name`.
pub fn is_name_taken(cache: &FactoidCache, guild: GuildIdWrapper, name: &String) -> (r: bool)
    ensures
        r == cache@.dom().contains((guild.0, name@)),
{
    let found = cache.find(guild, name);
    proof {
        lemma_rows_map_dom(cache.entries@);
    }
    found.is_some()
}

/// The factoid of `guild` with the id `name`, if there is one.
pub fn get_factoid(cache: &FactoidCache, guild: GuildIdWrapper, name: String) -> (r: Option<FactoidData>)
    ensures
        match r {
            Some(f) => map_get(cache@, (guild.0, name@)) == Some(f@),
            None => map_get(cache@, (guild.0, name@)) is None,
        },
{
    proof {
        use_type_invariant(cache);
    }
    match cache.find(guild, &name) {
        Some(i) => {
            proof {
                lemma_rows_map_value(cache.entries@);
                lemma_rows_map_dom(cache.entries@);
                assert(cache@[entry_key(cache.entries@[i as int])] == cache.entries@[i as int].1@);
            }
            Some(cache.entries[i].1.duplicate())
        },
        None => None,
    }
}

/// `f` is the factoid of one of the first `i` rows, a row of `guild`.
spec fn from_guild_row(s: Seq<(GuildIdWrapper, FactoidData)>, guild: u64, i: int, f: FactoidView) -> bool {
    exists|j: int| 0 <= j < i && #[trigger] s[j].0.0 == guild && s[j].1@ == f
}

/// `fs` lists the factoids of the rows of `guild` among the first `i` rows.
#[verifier::opaque]
spec fn collected(s: Seq<(GuildIdWrapper, FactoidData)>, fs: Seq<FactoidView>, guild: u64, i: int) -> bool {
    &&& forall|a: int| 0 <= a < fs.len() ==> #[trigger] from_guild_row(s, guild, i, fs[a])
    &&& forall|j: int|
        0 <= j < i && (#[trigger] s[j]).0.0 == guild ==> fs.contains(s[j].1@)
    &&& forall|a: int, b: int|
        0 <= a < fs.len() && 0 <= b < fs.len() && a != b ==> (#[trigger] fs[a]).factoid_name != (
        #[trigger] fs[b]).factoid_name
}

proof fn lemma_collected_start(s: Seq<(GuildIdWrapper, FactoidData)>, guild: u64)
    ensures
        collected(s, Seq::empty(), guild, 0),
{
    reveal(collected);
}

proof fn lemma_collected_skip(s: Seq<(GuildIdWrapper, FactoidData)>, fs: Seq<FactoidView>, guild: u64, i: int)
    requires
        collected(s, fs, guild, i),
        0 <= i < s.len(),
        s[i].0.0 != guild,
    ensures
        collected(s, fs, guild, i + 1),
{
    reveal(collected);
    assert forall|a: int| 0 <= a < fs.len() implies #[trigger] from_guild_row(s, guild, i + 1, fs[a]) by {
        assert(from_guild_row(s, guild, i, fs[a]));
        let j = choose|j: int| 0 <= j < i && #[trigger] s[j].0.0 == guild && s[j].1@ == fs[a];
        assert(0 <= j < i + 1 && s[j].0.0 == guild && s[j].1@ == fs[a]);
    }
}

proof fn lemma_collected_take(s: Seq<(GuildIdWrapper, FactoidData)>, fs: Seq<FactoidView>, guild: u64, i: int)
    requires
        collected(s, fs, guild, i),
        keys_unique(s),
        0 <= i < s.len(),
        s[i].0.0 == guild,
    ensures
        collected(s, fs.push(s[i].1@), guild, i + 1),
{
    reveal(collected);
    let g = fs.push(s[i].1@);
    let n = fs.len() as int;
    assert forall|a: int| 0 <= a < g.len() implies #[trigger] from_guild_row(s, guild, i + 1, g[a]) by {
        if a == n {
            assert(s[i].1@ == g[a]);
            assert(s[i].0.0 == guild);
        } else {
            assert(g[a] == fs[a]);
            assert(from_guild_row(s, guild, i, fs[a]));
            let j = choose|j: int| 0 <= j < i && #[trigger] s[j].0.0 == guild && s[j].1@ == fs[a];
            assert(0 <= j < i + 1 && s[j].0.0 == guild && s[j].1@ == g[a]);
        }
    }
    assert forall|j: int| 0 <= j < i + 1 && (#[trigger] s[j]).0.0 == guild implies g.contains(s[j].1@) by {
        if j == i {
            assert(g[n] == s[j].1@);
        } else {
            assert(fs.contains(s[j].1@));
            let a = choose|a: int| 0 <= a < fs.len() && fs[a] == s[j].1@;
            assert(g[a] == fs[a]);
        }
    }
    assert forall|a: int, b: int| 0 <= a < g.len() && 0 <= b < g.len() && a != b implies (
    #[trigger] g[a]).factoid_name != (#[trigger] g[b]).factoid_name by {
        if a == n || b == n {
            let c = if a == n { b } else { a };
            assert(g[c] == fs[c]);
            assert(from_guild_row(s, guild, i, fs[c]));
            let j = choose|j: int| 0 <= j < i && #[trigger] s[j].0.0 == guild && s[j].1@ == fs[c];
            assert(entry_key(s[j]) != entry_key(s[i]));
        } else {
            assert(g[a] == fs[a] && g[b] == fs[b]);
        }
    }
}

proof fn lemma_collected_done(s: Seq<(GuildIdWrapper, FactoidData)>, fs: Seq<FactoidView>, guild: u64)
    requires
        collected(s, fs, guild, s.len() as int),
        keys_unique(s),
    ensures
        lists_guild_factoids(fs, rows_map(s), guild),
{
    reveal(collected);
    lemma_rows_map_dom(s);
    lemma_rows_map_value(s);
    let m = rows_map(s);
    assert forall|a: int| 0 <= a < fs.len() implies guild_factoids(m, guild).contains(#[trigger] fs[a]) by {
        assert(from_guild_row(s, guild, s.len() as int, fs[a]));
        let j = choose|j: int| 0 <= j < s.len() && #[trigger] s[j].0.0 == guild && s[j].1@ == fs[a];
        assert(m[entry_key(s[j])] == s[j].1@);
        assert(m.dom().contains(entry_key(s[j])));
    }
    assert forall|f: FactoidView| #[trigger] guild_factoids(m, guild).contains(f) implies exists|a: int|
        0 <= a < fs.len() && fs[a] == f by {
        let k = choose|k: FactoidKey| k.0 == guild && #[trigger] m.dom().contains(k) && m[k] == f;
        let j = choose|j: int| 0 <= j < s.len() && entry_key(s[j]) == k;
        assert(m[entry_key(s[j])] == s[j].1@);
        assert(s[j].0.0 == guild);
        assert(fs.contains(s[j].1@));
    }
}

/// All factoids of `guild`, each once.
pub fn get_factoids_for_guild(cache: &FactoidCache, guild: GuildIdWrapper) -> (r: Vec<FactoidData>)
    ensures
        lists_guild_factoids(views_of(r@), cache@, guild.0),
{
    proof {
        use_type_invariant(cache);
    }
    let ghost s = cache.entries@;
    let mut out: Vec<FactoidData> = Vec::new();
    let mut i: usize = 0;
    proof {
        lemma_collected_start(s, guild.0);
        assert(views_of(out@) =~= Seq::<FactoidView>::empty());
    }
    while i < cache.entries.len()
        invariant
            s == cache.entries@,
            keys_unique(s),
            i <= s.len(),
            collected(s, views_of(out@), guild.0, i as int),
        decreases s.len() - i,
    {
        let e = &cache.entries[i];
        if e.0 == guild {
            let f = e.1.duplicate();
            proof {
                lemma_collected_take(s, views_of(out@), guild.0, i as int);
                assert(views_of(out@.push(f)) =~= views_of(out@).push(s[i as int].1@));
            }
            out.push(f);
        } else {
            proof {
                lemma_collected_skip(s, views_of(out@), guild.0, i as int);
            }
        }
        i = i + 1;
    }
    proof {
        lemma_collected_done(s, views_of(out@), guild.0);
    }
    out
}

/// `ns` lists the ids of the factoids of `guild` in `m`, each once, in some order.
pub open spec fn lists_guild_names(ns: Seq<Seq<char>>, m: Map<FactoidKey, FactoidView>, guild: u64) -> bool {
    &&& forall|a: int| 0 <= a < ns.len() ==> m.dom().contains((guild, #[trigger] ns[a]))
    &&& forall|k: FactoidKey| #[trigger] m.dom().contains(k) && k.0 == guild ==> ns.contains(k.1)
    &&& ns.no_duplicates()
}

/// The ids of the factoids of `guild`: what the id field of a command is
/// offered to complete to.
pub fn suggest_factoids_for(cache: &FactoidCache, guild: GuildIdWrapper) -> (r: Vec<String>)
    ensures
        lists_guild_names(r@.map_values(|n: String| n@), cache@, guild.0),
{
    let fs = get_factoids_for_guild(cache, guild);
    let ghost vs = views_of(fs@);
    let mut out: Vec<String> = Vec::new();
    let mut i: usize = 0;
    while i < fs.len()
        invariant
            vs == views_of(fs@),
            i <= fs@.len(),
            out@.len() == i,
            forall|a: int| 0 <= a < i ==> (#[trigger] out@[a])@ == vs[a].factoid_name,
        decreases fs@.len() - i,
    {
        out.push(fs[i].factoid_name.clone());
        i = i + 1;
    }
    proof {
        let m = cache@;
        let g = guild.0;
        let ns = out@.map_values(|n: String| n@);
        cache.law_factoids_filed_under_own_id();
        assert forall|a: int| 0 <= a < ns.len() implies m.dom().contains((g, #[trigger] ns[a])) by {
            assert(ns[a] == vs[a].factoid_name);
            assert(guild_factoids(m, g).contains(vs[a]));
            let k = choose|k: FactoidKey| k.0 == g && #[trigger] m.dom().contains(k) && m[k] == vs[a];
            assert(k == (g, ns[a]));
        }
        assert forall|k: FactoidKey| #[trigger] m.dom().contains(k) && k.0 == g implies ns.contains(k.1) by {
            assert(guild_factoids(m, g).contains(m[k]));
            let a = choose|a: int| 0 <= a < vs.len() && vs[a] == m[k];
            assert(ns[a] == k.1);
        }
        assert forall|a: int, b: int| 0 <= a < ns.len() && 0 <= b < ns.len() && a != b implies ns[a] != ns[b] by {
            assert(ns[a] == vs[a].factoid_name && ns[b] == vs[b].factoid_name);
        }
    }
    out
}

/// The factoid of `guild` shown under the display name `name`, if there is
/// one. Where several share that display name, which one comes back is not
/// fixed.
pub fn get_factoid_by_display_name(cache: &FactoidCache, guild: GuildIdWrapper, name: String) -> (r: Option<FactoidData>)
    ensures
        match r {
            Some(f) => guild_factoids(cache@, guild.0).contains(f@) && f@.display_name == name@,
            None => forall|f: FactoidView| #[trigger] guild_factoids(cache@, guild.0).contains(f) ==> f.display_name != name@,
        },
{
    let fs = get_factoids_for_guild(cache, guild);
    let ghost vs = views_of(fs@);
    let mut i: usize = 0;
    while i < fs.len()
        invariant
            vs == views_of(fs@),
            i <= fs@.len(),
            forall|a: int| 0 <= a < i ==> (#[trigger] vs[a]).display_name != name@,
            lists_guild_factoids(vs, cache@, guild.0),
        decreases fs@.len() - i,
    {
        if fs[i].display_name == name {
            assert(vs[i as int] == fs@[i as int]@);
            assert(guild_factoids(cache@, guild.0).contains(vs[i as int]));
            return Some(fs[i].duplicate());
        }
        i = i + 1;
    }
    proof {
        assert forall|f: FactoidView| #[trigger] guild_factoids(cache@, guild.0).contains(f) implies f.display_name != name@ by {
            let a = choose|a: int| 0 <= a < vs.len() && vs[a] == f;
        }
    }
    None
}

/// Adds a factoid to `guild` once the factoid table has taken it: `stored`
/// is the outcome of writing it to the table. Where that failed the cache is
/// left as it was and the error is handed on.
pub fn create_new_factoid(
    cache: &mut FactoidCache,
    guild: GuildIdWrapper,
    factoid: FactoidData,
    stored: Result<(), String>,
) -> (r: Result<(), String>)
    ensures
        r == stored,
        r is Ok ==> final(cache)@ == old(cache)@.insert((guild.0, factoid.factoid_name@), factoid@),
        r is Err ==> final(cache)@ == old(cache)@,
{
    if stored.is_ok() {
        cache.insert(guild, factoid);
    }
    stored
}

/// Replaces the factoid `factoid` of `guild` by `updated`, which may carry a
/// new id, once the factoid table has taken the change: `stored` is the
/// outcome of that write. Where it failed the cache is left as it was.
pub fn update_factoid(
    cache: &mut FactoidCache,
    guild: GuildIdWrapper,
    factoid: String,
    updated: FactoidData,
    stored: Result<(), String>,
) -> (r: Result<(), String>)
    ensures
        r == stored,
        r is Ok ==> final(cache)@ == old(cache)@.remove((guild.0, factoid@)).insert(
            (guild.0, updated.factoid_name@),
            updated@,
        ),
        r is Err ==> final(cache)@ == old(cache)@,
{
    if stored.is_ok() {
        cache.remove(guild, &factoid);
        cache.insert(guild, updated);
    }
    stored
}

/// Drops the factoid `name` of `guild` once it is gone from the factoid
/// table: `stored` is the outcome of that delete. Where it failed the cache
/// is left as it was.
pub fn delete_factoid(
    cache: &mut FactoidCache,
    guild: GuildIdWrapper,
    name: String,
    stored: Result<(), String>,
) -> (r: Result<(), String>)
    ensures
        r == stored,
        r is Ok ==> final(cache)@ == old(cache)@.remove((guild.0, name@)),
        r is Err ==> final(cache)@ == old(cache)@,
{
    if stored.is_ok() {
        cache.remove(guild, &name);
    }
    stored
}

/// A factoid that was created is found under its guild and its id, and that
/// id then counts as taken.
pub proof fn law_created_factoid_is_found(
    before: Map<FactoidKey, FactoidView>,
    after: Map<FactoidKey, FactoidView>,
    guild: u64,
    f: FactoidView,
)
    requires
        after == before.insert((guild, f.factoid_name), f),
    ensures
        map_get(after, (guild, f.factoid_name)) == Some(f),
        after.dom().contains((guild, f.factoid_name)),
        guild_factoids(after, guild).contains(f),
{
    assert(after.dom().contains((guild, f.factoid_name)) && after[(guild, f.factoid_name)] == f);
}

/// A deleted factoid is no longer found, and its id is free again.
pub proof fn law_deleted_factoid_is_gone(
    before: Map<FactoidKey, FactoidView>,
    after: Map<FactoidKey, FactoidView>,
    guild: u64,
    name: Seq<char>,
)
    requires
        after == before.remove((guild, name)),
    ensures
        map_get(after, (guild, name)) is None,
        !after.dom().contains((guild, name)),
{
}

/// After an update the factoid is found under its new id with its new
/// content, and its old id is free unless the id did not change.
pub proof fn law_updated_factoid_moves(
    before: Map<FactoidKey, FactoidView>,
    after: Map<FactoidKey, FactoidView>,
    guild: u64,
    old_name: Seq<char>,
    updated: FactoidView,
)
    requires
        after == before.remove((guild, old_name)).insert((guild, updated.factoid_name), updated),
    ensures
        map_get(after, (guild, updated.factoid_name)) == Some(updated),
        old_name != updated.factoid_name ==> map_get(after, (guild, old_name)) is None,
{
    assert(after.dom().contains((guild, updated.factoid_name)));
}

/// A change made for one guild leaves every other guild's factoids as they
/// were: creating, updating and deleting agree on every key of another guild.
pub proof fn law_other_guilds_untouched(
    before: Map<FactoidKey, FactoidView>,
    guild: u64,
    old_name: Seq<char>,
    f: FactoidView,
    k: FactoidKey,
)
    requires
        k.0 != guild,
    ensures
        map_get(before.insert((guild, f.factoid_name), f), k) == map_get(before, k),
        map_get(before.remove((guild, old_name)), k) == map_get(before, k),
        map_get(before.remove((guild, old_name)).insert((guild, f.factoid_name), f), k) == map_get(before, k),
{
}

/// Loading the factoid table makes the cache hold exactly its rows: each row
/// is found under its guild and id unless a later row has the same key, and
/// nothing else is found.
pub proof fn law_load_holds_rows(rows: Seq<(GuildIdWrapper, FactoidData)>)
    ensures
        forall|i: int| 0 <= i < rows.len() ==> rows_map(rows).dom().contains(#[trigger] entry_key(rows[i])),
        forall|k: FactoidKey| #[trigger] rows_map(rows).dom().contains(k) ==> exists|i: int|
            0 <= i < rows.len() && entry_key(rows[i]) == k,
        keys_unique(rows) ==> forall|i: int| 0 <= i < rows.len() ==> rows_map(rows)[#[trigger] entry_key(rows[i])] == rows[i].1@,
{
    lemma_rows_map_dom(rows);
    if keys_unique(rows) {
        lemma_rows_map_value(rows);
    }
}

/// Deleting a factoid that was just created under a free id undoes the
/// creation.
pub proof fn law_delete_undoes_create(before: Map<FactoidKey, FactoidView>, guild: u64, f: FactoidView)
    requires
        !before.dom().contains((guild, f.factoid_name)),
    ensures
        before.insert((guild, f.factoid_name), f).remove((guild, f.factoid_name)) == before,
{
    assert(before.insert((guild, f.factoid_name), f).remove((guild, f.factoid_name)) =~= before);
}

/// An id counts as taken in a guild exactly when a factoid is found under it.
pub proof fn law_taken_iff_found(m: Map<FactoidKey, FactoidView>, guild: u64, name: Seq<char>)
    ensures
        m.dom().contains((guild, name)) <==> map_get(m, (guild, name)) is Some,
{
}

/// Whether the factoids bot has been started.
pub struct Initialisation {
    initialised: bool,
}

impl View for Initialisation {
    type V = bool;

    closed spec fn view(&self) -> bool {
        self.initialised
    }
}

impl Initialisation {
    /// Not started yet.
    pub fn new() -> (r: Initialisation)
        ensures
            r@ == false,
    {
        Initialisation { initialised: false }
    }
}

/// Whether the factoids bot has been started.
pub fn is_initialised(flag: &Initialisation) -> (r: bool)
    ensures
        r == flag@,
{
    flag.initialised
}

/// Records whether the factoids bot has been started.
pub fn set_initialised(flag: &mut Initialisation, val: bool)
    ensures
        final(flag)@ == val,
{
    flag.initialised = val;
}

} // verus!
