use vstd::prelude::*;

use std::collections::HashMap;

use crate::util::{spec_starts_with_at, str_starts_with_at};

verus! {

/// The prefix every guild starts out with, and the one prefix direct
/// messages accept.
pub const DEFAULT_PREFIX: &'static str = "<";

/// A guild member or role that may run authority-gated commands.
#[derive(Clone, Copy, PartialEq, Eq, Structural, Debug)]
pub enum AuthorityRef {
    Role(u64),
    User(u64),
}

/// Per-guild settings, cached in memory and written through to the
/// persistent store on every change.
pub struct GuildConfig {
    pub authorities: Vec<AuthorityRef>,
    pub prefixes: Vec<String>,
    pub show_retries: bool,
    pub track_limit: u8,
    pub with_lyrics: bool,
}

/// The mathematical value of a guild configuration.
pub struct GuildConfigView {
    pub authorities: Seq<AuthorityRef>,
    pub prefixes: Seq<Seq<char>>,
    pub show_retries: bool,
    pub track_limit: u8,
    pub with_lyrics: bool,
}

impl View for GuildConfig {
    type V = GuildConfigView;

    open spec fn view(&self) -> GuildConfigView {
        GuildConfigView {
            authorities: self.authorities@,
            prefixes: self.prefixes.deep_view(),
            show_retries: self.show_retries,
            track_limit: self.track_limit,
            with_lyrics: self.with_lyrics,
        }
    }
}

impl GuildConfigView {
    /// A guild always keeps at least one prefix.
    pub open spec fn wf(&self) -> bool {
        self.prefixes.len() >= 1
    }
}

impl GuildConfig {
    pub open spec fn wf(&self) -> bool {
        self@.wf()
    }
}

/// The configuration of a guild nobody configured.
pub open spec fn default_guild_config() -> GuildConfigView {
    GuildConfigView {
        authorities: Seq::empty(),
        prefixes: seq![DEFAULT_PREFIX@],
        show_retries: true,
        track_limit: 50,
        with_lyrics: true,
    }
}

impl Default for GuildConfig {
    fn default() -> (r: Self)
        ensures
            r@ == default_guild_config(),
    {
        let mut prefixes: Vec<String> = Vec::new();
        prefixes.push(String::from_str(DEFAULT_PREFIX));

        let r = Self {
            authorities: Vec::new(),
            prefixes,
            show_retries: true,
            track_limit: 50,
            with_lyrics: true,
        };

        proof {
            assert(r.prefixes.deep_view() =~= seq![DEFAULT_PREFIX@]);
            assert(r.authorities@ =~= Seq::<AuthorityRef>::empty());
        }

        r
    }
}

impl Clone for GuildConfig {
    fn clone(&self) -> (r: Self)
        ensures
            r@ == self@,
    {
        let prefixes = self.prefixes.clone();

        proof {
            assert forall|i: int| 0 <= i < self.prefixes@.len() implies self.prefixes@[i]
                == prefixes@[i] by {
                assert(vstd::pervasive::cloned::<String>(self.prefixes@[i], prefixes@[i]));
            }
            assert(prefixes.deep_view() =~= self.prefixes.deep_view());
        }

        let mut authorities: Vec<AuthorityRef> = Vec::new();
        let mut i: usize = 0;

        while i < self.authorities.len()
            invariant
                i <= self.authorities@.len(),
                authorities@ == self.authorities@.take(i as int),
            decreases self.authorities@.len() - i,
        {
            authorities.push(self.authorities[i]);
            proof {
                assert(self.authorities@.take(i as int + 1) =~= self.authorities@.take(
                    i as int,
                ).push(self.authorities@[i as int]));
            }
            i = i + 1;
        }

        proof {
            assert(self.authorities@.take(self.authorities@.len() as int) =~= self.authorities@);
        }

        Self {
            authorities,
            prefixes,
            show_retries: self.show_retries,
            track_limit: self.track_limit,
            with_lyrics: self.with_lyrics,
        }
    }
}

/// Per-user settings: an option bag, each entry overriding the guild
/// default when set.
#[derive(Clone, Copy, PartialEq, Eq, Debug)]
pub struct UserConfig {
    pub show_retries: Option<bool>,
    pub with_lyrics: Option<bool>,
}

impl Default for UserConfig {
    fn default() -> (r: Self)
        ensures
            r.show_retries is None,
            r.with_lyrics is None,
    {
        Self { show_retries: None, with_lyrics: None }
    }
}

/// The in-memory guild configuration cache the context carries.
pub struct Context {
    pub guilds: HashMap<u64, GuildConfig>,
}

impl Context {
    /// The mathematical value of the cache.
    pub open spec fn model(&self) -> Map<u64, GuildConfigView> {
        Map::new(
            |g: u64| self.guilds@.contains_key(g),
            |g: u64| self.guilds@[g]@,
        )
    }

    pub open spec fn wf(&self) -> bool {
        forall|g: u64| self.model().contains_key(g) ==> (#[trigger] self.model()[g]).wf()
    }

    pub fn new() -> (r: Self)
        ensures
            r.wf(),
            r.model() == Map::<u64, GuildConfigView>::empty(),
    {
        let r = Self { guilds: HashMap::new() };

        proof {
            assert(r.model() =~= Map::<u64, GuildConfigView>::empty());
        }

        r
    }

    /// Whether a configuration for `guild_id` is cached. When it is
    /// not, a read inserts the default, and the caller persists that
    /// default best-effort — a persistence failure leaves the cache
    /// populated, so reads stay consistent for the process lifetime.
    pub fn has_guild_config(&self, guild_id: u64) -> (r: bool)
        ensures
            r == self.model().contains_key(guild_id),
    {
        self.guilds.contains_key(&guild_id)
    }

    /// The persisted record of a user as the store returned it; if the
    /// store held none, the default, which the caller then persists
    /// (the second component says so).
    pub fn user_config(&self, fetched: Option<UserConfig>) -> (r: (UserConfig, bool))
        ensures
            match fetched {
                Some(c) => r.0 == c && !r.1,
                None => r.0 == (UserConfig { show_retries: None, with_lyrics: None }) && r.1,
            },
    {
        match fetched {
            Some(c) => (c, false),
            None => (UserConfig::default(), true),
        }
    }

    /// The configuration a read of `guild_id` observes: the cached one,
    /// or the default for a guild not cached yet.
    pub open spec fn spec_guild_config(&self, guild_id: u64) -> GuildConfigView {
        if self.model().contains_key(guild_id) {
            self.model()[guild_id]
        } else {
            default_guild_config()
        }
    }

    /// The cached configuration of `guild_id`, or the default, which
    /// is then cached.
    pub fn guild_config(&mut self, guild_id: u64) -> (r: GuildConfig)
        requires
            old(self).wf(),
        ensures
            final(self).wf(),
            r@ == old(self).spec_guild_config(guild_id),
            final(self).model() == old(self).model().insert(guild_id, r@),
    {
        let r = match self.guilds.get(&guild_id) {
            Some(config) => config.clone(),
            None => {
                let config = GuildConfig::default();
                let copy = config.clone();
                self.guilds.insert(guild_id, config);
                copy
            },
        };

        proof {
            assert(self.model() =~= old(self).model().insert(guild_id, r@));
        }

        r
    }

    /// The prefixes of `guild_id`.
    pub fn guild_prefixes(&mut self, guild_id: u64) -> (r: Vec<String>)
        requires
            old(self).wf(),
        ensures
            final(self).wf(),
            r.deep_view() == old(self).spec_guild_config(guild_id).prefixes,
            r@.len() >= 1,
            final(self).model() == old(self).model().insert(
                guild_id,
                old(self).spec_guild_config(guild_id),
            ),
    {
        let config = self.guild_config(guild_id);
        config.prefixes
    }

    /// The first of the guild's prefixes that the message content
    /// carries at `pos`, front to back.
    pub fn guild_prefixes_find(&mut self, guild_id: u64, content: &str, pos: usize) -> (r: Option<
        String,
    >)
        requires
            old(self).wf(),
        ensures
            final(self).wf(),
            final(self).model() == old(self).model().insert(
                guild_id,
                old(self).spec_guild_config(guild_id),
            ),
            ({
                let found = first_matching_prefix(
                    old(self).spec_guild_config(guild_id).prefixes,
                    content@,
                    pos as int,
                );
                match r {
                    Some(p) => found == Some(p@),
                    None => found is None,
                }
            }),
    {
        let prefixes = self.guild_prefixes(guild_id);
        let mut i: usize = 0;

        while i < prefixes.len()
            invariant
                self.wf(),
                self.model() == old(self).model().insert(
                    guild_id,
                    old(self).spec_guild_config(guild_id),
                ),
                prefixes.deep_view() == old(self).spec_guild_config(guild_id).prefixes,
                i <= prefixes@.len(),
                prefixes@.len() == prefixes.deep_view().len(),
                forall|j: int| 0 <= j < prefixes@.len() ==> prefixes.deep_view()[j]
                    == #[trigger] prefixes@[j]@,
                forall|j: int| 0 <= j < i ==> !spec_starts_with_at(
                    content@,
                    pos as int,
                    #[trigger] prefixes.deep_view()[j],
                ),
            decreases prefixes@.len() - i,
        {
            if str_starts_with_at(content, pos, prefixes[i].as_str()) {
                proof {
                    lemma_first_matching_prefix_found(
                        prefixes.deep_view(),
                        content@,
                        pos as int,
                        i as int,
                    );
                }
                let p = prefixes[i].clone();
                return Some(p);
            }
            i = i + 1;
        }

        proof {
            lemma_first_matching_prefix_none(prefixes.deep_view(), content@, pos as int);
        }

        None
    }

    /// The first prefix of the guild, or the default prefix outside
    /// a guild.
    pub fn guild_first_prefix(&mut self, guild_id: Option<u64>) -> (r: String)
        requires
            old(self).wf(),
        ensures
            final(self).wf(),
            match guild_id {
                Some(g) => r@ == old(self).spec_guild_config(g).prefixes[0]
                    && final(self).model() == old(self).model().insert(
                    g,
                    old(self).spec_guild_config(g),
                ),
                None => r@ == DEFAULT_PREFIX@ && final(self).model() == old(self).model(),
            },
    {
        match guild_id {
            Some(g) => {
                let mut prefixes = self.guild_prefixes(g);
                let first = prefixes.remove(0);
                first
            },
            None => String::from_str(DEFAULT_PREFIX),
        }
    }

    /// Whether song commands respond with lyrics in `guild_id`.
    pub fn guild_with_lyrics(&mut self, guild_id: u64) -> (r: bool)
        requires
            old(self).wf(),
        ensures
            final(self).wf(),
            r == old(self).spec_guild_config(guild_id).with_lyrics,
            final(self).model() == old(self).model().insert(
                guild_id,
                old(self).spec_guild_config(guild_id),
            ),
    {
        let config = self.guild_config(guild_id);
        config.with_lyrics
    }

    /// Whether scores of `guild_id` show the retry count.
    pub fn guild_show_retries(&mut self, guild_id: u64) -> (r: bool)
        requires
            old(self).wf(),
        ensures
            final(self).wf(),
            r == old(self).spec_guild_config(guild_id).show_retries,
            final(self).model() == old(self).model().insert(
                guild_id,
                old(self).spec_guild_config(guild_id),
            ),
    {
        let config = self.guild_config(guild_id);
        config.show_retries
    }

    /// How many scores tracking posts at most in `guild_id`.
    pub fn guild_track_limit(&mut self, guild_id: u64) -> (r: u8)
        requires
            old(self).wf(),
        ensures
            final(self).wf(),
            r == old(self).spec_guild_config(guild_id).track_limit,
            final(self).model() == old(self).model().insert(
                guild_id,
                old(self).spec_guild_config(guild_id),
            ),
    {
        let config = self.guild_config(guild_id);
        config.track_limit
    }

    /// The copy an update starts from: the cached configuration or the
    /// default, with the cache untouched. The caller mutates the copy,
    /// persists it, and only on success commits it with
    /// `update_guild_config`; on failure the cache keeps its old value.
    pub fn guild_config_to_update(&self, guild_id: u64) -> (r: GuildConfig)
        requires
            self.wf(),
        ensures
            r@ == self.spec_guild_config(guild_id),
    {
        match self.guilds.get(&guild_id) {
            Some(config) => config.clone(),
            None => GuildConfig::default(),
        }
    }

    /// Commit a successfully persisted configuration to the cache. The
    /// cached value becomes exactly `config`: concurrent updates
    /// serialize through the store, and the cache always holds the
    /// post-state of the last committed one, never a mixture.
    pub fn update_guild_config(&mut self, guild_id: u64, config: GuildConfig)
        requires
            old(self).wf(),
            config.wf(),
        ensures
            final(self).wf(),
            final(self).model() == old(self).model().insert(guild_id, config@),
    {
        let ghost v = config@;
        self.guilds.insert(guild_id, config);

        proof {
            assert(self.model() =~= old(self).model().insert(guild_id, v));
        }
    }
}

/// The first element of `prefixes` that `s` carries at `pos`.
pub open spec fn first_matching_prefix(prefixes: Seq<Seq<char>>, s: Seq<char>, pos: int) -> Option<
    Seq<char>,
>
    decreases prefixes.len(),
{
    if prefixes.len() == 0 {
        None
    } else if spec_starts_with_at(s, pos, prefixes[0]) {
        Some(prefixes[0])
    } else {
        first_matching_prefix(prefixes.drop_first(), s, pos)
    }
}

/// A found prefix really stands at `pos`.
pub proof fn lemma_first_matching_prefix_matches(prefixes: Seq<Seq<char>>, s: Seq<char>, pos: int)
    ensures
        first_matching_prefix(prefixes, s, pos) matches Some(p) ==> spec_starts_with_at(s, pos, p),
    decreases prefixes.len(),
{
    if prefixes.len() > 0 && !spec_starts_with_at(s, pos, prefixes[0]) {
        lemma_first_matching_prefix_matches(prefixes.drop_first(), s, pos);
    }
}

proof fn lemma_first_matching_prefix_found(prefixes: Seq<Seq<char>>, s: Seq<char>, pos: int, i: int)
    requires
        0 <= i < prefixes.len(),
        spec_starts_with_at(s, pos, prefixes[i]),
        forall|j: int| 0 <= j < i ==> !spec_starts_with_at(s, pos, #[trigger] prefixes[j]),
    ensures
        first_matching_prefix(prefixes, s, pos) == Some(prefixes[i]),
    decreases i,
{
    if i > 0 {
        lemma_first_matching_prefix_found(prefixes.drop_first(), s, pos, i - 1);
    }
}

proof fn lemma_first_matching_prefix_none(prefixes: Seq<Seq<char>>, s: Seq<char>, pos: int)
    requires
        forall|j: int| 0 <= j < prefixes.len() ==> !spec_starts_with_at(
            s,
            pos,
            #[trigger] prefixes[j],
        ),
    ensures
        first_matching_prefix(prefixes, s, pos) is None,
    decreases prefixes.len(),
{
    if prefixes.len() > 0 {
        lemma_first_matching_prefix_none(prefixes.drop_first(), s, pos);
    }
}

/// Law: writing a guild configuration and then reading it gives back
/// exactly what was written. `update_guild_config` makes the cache
/// `insert(g, x)`, and every read of a cached guild returns the
/// cached value.
pub proof fn lemma_guild_config_write_read(m: Map<u64, GuildConfigView>, g: u64, x: GuildConfigView)
    ensures
        m.insert(g, x).contains_key(g),
        m.insert(g, x)[g] == x,
{
}

/// Law: two committed updates of the same guild serialize. In either
/// order, the cache ends up holding the post-state of the one that
/// committed last, wholly — never a mixture of the two.
pub proof fn lemma_guild_updates_serialize(
    m: Map<u64, GuildConfigView>,
    g: u64,
    a: GuildConfigView,
    b: GuildConfigView,
)
    ensures
        m.insert(g, a).insert(g, b)[g] == b,
        m.insert(g, b).insert(g, a)[g] == a,
        m.insert(g, a).insert(g, b)[g] == a || m.insert(g, a).insert(g, b)[g] == b,
{
}

} // verus!
