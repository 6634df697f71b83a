use vstd::prelude::*;

use crate::buckets::{BucketName, Buckets, MAX_BUCKET_TIME};
use crate::configs::{first_matching_prefix, Context, DEFAULT_PREFIX};
use crate::policy::{pre_process_command, spec_slash_gate, CommandFlags, PolicyDecision};
use crate::registry::{SlashCommand, SlashCommands};
use crate::util::{
    dec_value, is_digit_char, is_whitespace_char, lower_char, parse_u64, spec_starts_with_at,
    str_eq, str_starts_with_at, to_lowercase, unicode_whitespace,
};

verus! {

/// The position of the first non-whitespace character at or after
/// `pos`.
pub open spec fn spec_skip_ws(s: Seq<char>, pos: int) -> int
    decreases s.len() - pos,
{
    if pos < 0 {
        0
    } else if pos >= s.len() {
        s.len() as int
    } else if unicode_whitespace(s[pos]) {
        spec_skip_ws(s, pos + 1)
    } else {
        pos
    }
}

/// Skip whitespace, reporting where the rest begins.
pub fn skip_whitespace(s: &str, pos: usize) -> (r: usize)
    requires
        pos <= s@.len(),
    ensures
        r == spec_skip_ws(s@, pos as int),
        pos <= r <= s@.len(),
{
    let len = s.unicode_len();
    let mut i: usize = pos;

    while i < len
        invariant
            pos <= i <= len,
            len == s@.len(),
            spec_skip_ws(s@, pos as int) == spec_skip_ws(s@, i as int),
        decreases len - i,
    {
        if !is_whitespace_char(s.get_char(i)) {
            return i;
        }
        i = i + 1;
    }

    len
}

/// The position right after the whitespace-free word at `pos`.
pub open spec fn spec_word_end(s: Seq<char>, pos: int) -> int
    decreases s.len() - pos,
{
    if pos < 0 {
        0
    } else if pos >= s.len() {
        s.len() as int
    } else if !unicode_whitespace(s[pos]) {
        spec_word_end(s, pos + 1)
    } else {
        pos
    }
}

/// Find where the word at `pos` ends.
pub fn word_end(s: &str, pos: usize) -> (r: usize)
    requires
        pos <= s@.len(),
    ensures
        r == spec_word_end(s@, pos as int),
        pos <= r <= s@.len(),
{
    let len = s.unicode_len();
    let mut i: usize = pos;

    while i < len
        invariant
            pos <= i <= len,
            len == s@.len(),
            spec_word_end(s@, pos as int) == spec_word_end(s@, i as int),
        decreases len - i,
    {
        if is_whitespace_char(s.get_char(i)) {
            return i;
        }
        i = i + 1;
    }

    len
}

/// Where the maximal run of decimal digits that ends the word begins.
pub open spec fn spec_digit_suffix_start(w: Seq<char>, i: int) -> int
    decreases i,
{
    if i <= 0 {
        0
    } else if is_digit_char(w[i - 1]) {
        spec_digit_suffix_start(w, i - 1)
    } else {
        i
    }
}

/// The command name and the numeric suffix an invocation word splits
/// into: a word like `recent3` names the command `recent` with the
/// number `3`; without digits, or made of digits only, or with a
/// number too large, the whole word is the name.
pub open spec fn spec_split_suffix(w: Seq<char>) -> (Seq<char>, Option<u64>) {
    let k = spec_digit_suffix_start(w, w.len() as int);
    if 0 < k < w.len() && dec_value(w.subrange(k, w.len() as int)) <= u64::MAX {
        (w.take(k), Some(dec_value(w.subrange(k, w.len() as int)) as u64))
    } else {
        (w, None)
    }
}

/// What parsing an invocation from `s` at `pos` yields: the
/// lower-cased command name, the numeric suffix, and where the
/// arguments begin.
pub open spec fn spec_parse_invoke(s: Seq<char>, pos: int) -> Option<(Seq<char>, Option<u64>, int)> {
    let a = spec_skip_ws(s, pos);
    let b = spec_word_end(s, a);
    if a == b {
        None
    } else {
        let w = s.subrange(a, b);
        let (base, num) = spec_split_suffix(w);
        Some((base.map_values(|c: char| lower_char(c)), num, b))
    }
}

/// Parse `{command-name, optional numeric suffix}` from `s` at `pos`.
pub fn parse_invoke(s: &str, pos: usize) -> (r: Option<(String, Option<u64>, usize)>)
    requires
        pos <= s@.len(),
    ensures
        match r {
            Some((name, num, args)) => spec_parse_invoke(s@, pos as int) == Some(
                (name@, num, args as int),
            ),
            None => spec_parse_invoke(s@, pos as int) is None,
        },
{
    let a = skip_whitespace(s, pos);
    let b = word_end(s, a);

    if a == b {
        return None;
    }

    let word = s.substring_char(a, b);

    proof {
        assert(word@ == s@.subrange(a as int, b as int));
    }

    let wlen = word.unicode_len();
    let mut k: usize = wlen;

    loop
        invariant
            k <= wlen,
            wlen == word@.len(),
            spec_digit_suffix_start(word@, wlen as int) == spec_digit_suffix_start(
                word@,
                k as int,
            ),
            forall|j: int| k <= j < wlen ==> is_digit_char(#[trigger] word@[j]),
        ensures
            k == spec_digit_suffix_start(word@, wlen as int),
            forall|j: int| k <= j < wlen ==> is_digit_char(#[trigger] word@[j]),
        decreases k,
    {
        if k == 0 {
            break;
        }

        let c = word.get_char(k - 1);
        let code = c as u32;

        if code < 48 || code > 57 {
            proof {
                assert(spec_digit_suffix_start(word@, k as int) == k as int);
            }
            break;
        }
        k = k - 1;
    }

    if 0 < k && k < wlen {
        let digits = word.substring_char(k, wlen);

        proof {
            assert(digits@ == word@.subrange(k as int, wlen as int));
        }

        match parse_u64(digits) {
            Some(num) => {
                let base = word.substring_char(0, k);
                proof {
                    assert(base@ =~= word@.take(k as int));
                }
                let name = to_lowercase(base);
                return Some((name, Some(num), b));
            },
            None => {
                proof {
                    assert(digits@.len() > 0);
                    assert forall|j: int| 0 <= j < digits@.len() implies is_digit_char(
                        #[trigger] digits@[j],
                    ) by {
                        assert(digits@[j] == word@[k + j]);
                    }
                    assert(dec_value(digits@) > u64::MAX);
                }
                let name = to_lowercase(word);
                return Some((name, None, b));
            },
        }
    }

    let name = to_lowercase(word);
    Some((name, None, b))
}

/// What the dispatcher does with an inbound message.
pub enum MessageInvoke {
    /// Dropped silently: a bot or webhook author, a guild message
    /// without a known prefix, or no command name after the prefix.
    Ignore,
    /// A command invocation: its lower-cased name, its numeric suffix,
    /// and where its arguments begin in the content.
    Command { name: String, num: Option<u64>, args_pos: usize },
}

/// The message half of the dispatcher: drop bot and webhook traffic,
/// find the prefix — the guild's own list in a guild, the default
/// prefix in direct messages, where it is optional — and parse the
/// invocation. Policy and execution follow once the name is resolved.
pub fn handle_message(
    ctx: &mut Context,
    content: &str,
    author_bot: bool,
    has_webhook: bool,
    guild: Option<u64>,
) -> (r: MessageInvoke)
    requires
        old(ctx).wf(),
    ensures
        final(ctx).wf(),
        author_bot || has_webhook ==> r is Ignore,
        match guild {
            Some(g) => if author_bot || has_webhook {
                final(ctx).model() == old(ctx).model()
            } else {
                final(ctx).model() == old(ctx).model().insert(
                    g,
                    old(ctx).spec_guild_config(g),
                )
            },
            None => final(ctx).model() == old(ctx).model(),
        },
        ({
            let start = spec_skip_ws(content@, 0);
            let found = match guild {
                Some(g) => first_matching_prefix(
                    old(ctx).spec_guild_config(g).prefixes,
                    content@,
                    start,
                ),
                None => if spec_starts_with_at(content@, start, DEFAULT_PREFIX@) {
                    Some(DEFAULT_PREFIX@)
                } else {
                    None
                },
            };
            !(author_bot || has_webhook) ==> match found {
                Some(p) => spec_message_invoke(r, content@, start + p.len()),
                None => if guild is Some {
                    r is Ignore
                } else {
                    spec_message_invoke(r, content@, start)
                },
            }
        }),
{
    if author_bot || has_webhook {
        return MessageInvoke::Ignore;
    }

    let content_len = content.unicode_len();
    let start = skip_whitespace(content, 0);

    proof {
        assert(content_len == content@.len());
    }

    let after_prefix: usize = match guild {
        Some(g) => {
            match ctx.guild_prefixes_find(g, content, start) {
                Some(p) => {
                    proof {
                        crate::configs::lemma_first_matching_prefix_matches(
                            old(ctx).spec_guild_config(g).prefixes,
                            content@,
                            start as int,
                        );
                    }
                    let plen = p.as_str().unicode_len();
                    start + plen
                },
                None => {
                    return MessageInvoke::Ignore;
                },
            }
        },
        None => {
            if str_starts_with_at(content, start, DEFAULT_PREFIX) {
                proof {
                    reveal_strlit("<");
                }
                start + 1
            } else {
                start
            }
        },
    };

    proof {
        if guild is None {
            reveal_strlit("<");
        }
    }

    match parse_invoke(content, after_prefix) {
        Some((name, num, args_pos)) => MessageInvoke::Command { name, num, args_pos },
        None => MessageInvoke::Ignore,
    }
}

/// What `handle_message` yields once the prefix question is settled
/// and parsing starts at `pos`.
pub open spec fn spec_message_invoke(r: MessageInvoke, s: Seq<char>, pos: int) -> bool {
    match spec_parse_invoke(s, pos) {
        Some((name, num, args)) => r matches MessageInvoke::Command {
            name: n,
            num: m,
            args_pos: a,
        } && n@ == name && m == num && a == args,
        None => r is Ignore,
    }
}

/// The log line a command invocation writes: where it came from, who
/// invoked it, and the command's name.
pub fn log_command(location: &str, username: Option<&String>, name: &str) -> (r: String)
    ensures
        r@ == "["@ + location@ + "] "@ + (match username {
            Some(u) => u@,
            None => "<unknown user>"@,
        }) + " invoked `"@ + name@ + "`"@,
{
    let mut line = String::from_str("[");
    line.append(location);
    line.append("] ");
    match username {
        Some(u) => line.append(u.as_str()),
        None => line.append("<unknown user>"),
    }
    line.append(" invoked `");
    line.append(name);
    line.append("`");
    line
}

/// Where a command was invoked, as the log shows it: the guild and
/// channel names where they are cached, placeholders where they are
/// not, and `Private` outside a guild.
pub fn location_text(in_guild: bool, guild_name: Option<&String>, channel_name: Option<&String>)
    -> (r: String)
    ensures
        !in_guild ==> r@ == "Private"@,
        in_guild && guild_name is None ==> r@ == "<uncached guild>"@,
        in_guild ==> (guild_name matches Some(g) ==> r@ == g@ + ":"@ + (match channel_name {
            Some(c) => c@,
            None => "<uncached channel>"@,
        })),
{
    if !in_guild {
        return String::from_str("Private");
    }

    match guild_name {
        None => String::from_str("<uncached guild>"),
        Some(g) => {
            let mut line = g.clone();
            line.append(":");
            match channel_name {
                Some(c) => line.append(c.as_str()),
                None => line.append("<uncached channel>"),
            }
            line
        },
    }
}

/// The slash half of the dispatcher: look the command up in the slash
/// registry — an unknown name is logged and dropped — and run the
/// policy gate on its descriptor. On `Proceed` the caller defers when
/// the descriptor asks for it and then runs the executor.
pub fn handle_command<'a>(
    slash: &'a SlashCommands,
    buckets: &mut Buckets,
    name: &str,
    in_guild: bool,
    user: u64,
    owners: &Vec<u64>,
    now: i64,
    authority_reason: Option<String>,
) -> (r: Option<(&'a SlashCommand, PolicyDecision)>)
    requires
        slash.wf(),
        old(buckets).wf(),
        0 <= now <= MAX_BUCKET_TIME,
    ensures
        final(buckets).wf(),
        r is None <==> !slash.spec_registered(name@),
        r is None ==> *final(buckets) == *old(buckets),
        r matches Some((c, d)) ==> c.name@ == name@ && c.flags.wf() && (exists|i: int|
            0 <= i < slash.commands@.len() && slash.commands@[i] == *c) && spec_slash_gate(
            c.flags,
            c.bucket,
            *old(buckets),
            *final(buckets),
            in_guild,
            user,
            owners@,
            now as int,
            authority_reason,
            d,
        ),
{
    let command = match slash.command(name) {
        Some(c) => c,
        None => {
            return None;
        },
    };

    proof {
        let i = choose|i: int|
            0 <= i < slash.commands@.len() && slash.commands@[i] == *command;
        assert(slash.commands@[i].bucket != Some(BucketName::All));
        assert(slash.commands@[i].flags.wf());
    }

    let decision = pre_process_command(
        &command.flags,
        command.bucket,
        buckets,
        in_guild,
        user,
        owners,
        now,
        authority_reason,
    );

    Some((command, decision))
}

/// One prefix command of the registry: its name, its aliases, its
/// policy switches and its cooldown bucket.
pub struct PrefixCommand {
    pub name: String,
    pub aliases: Vec<String>,
    pub flags: CommandFlags,
    pub bucket: Option<BucketName>,
}

/// Whether `name` invokes the command, by its name or an alias.
pub open spec fn spec_cmd_matches(c: PrefixCommand, name: Seq<char>) -> bool {
    c.name@ == name || c.aliases.deep_view().contains(name)
}

/// The flat name-or-alias index of the prefix commands.
pub struct PrefixCommands {
    pub cmds: Vec<PrefixCommand>,
}

impl PrefixCommands {
    /// Every descriptor is well formed: its flags never both defer and
    /// skip the deferral, and its cooldown bucket is never the global
    /// one, which the policy gate already applies to all prefix
    /// invocations.
    pub open spec fn wf(&self) -> bool {
        forall|i: int|
            0 <= i < self.cmds@.len() ==> (#[trigger] self.cmds@[i]).flags.wf() && self.cmds@[i].bucket
                != Some(BucketName::All)
    }

    pub fn new(cmds: Vec<PrefixCommand>) -> (r: Self)
        requires
            forall|i: int|
                0 <= i < cmds@.len() ==> (#[trigger] cmds@[i]).flags.wf() && cmds@[i].bucket
                    != Some(BucketName::All),
        ensures
            r.wf(),
            r.cmds == cmds,
    {
        Self { cmds }
    }

    /// The command `name` invokes, if one does.
    pub fn command(&self, name: &str) -> (r: Option<&PrefixCommand>)
        requires
            self.wf(),
        ensures
            match r {
                Some(c) => spec_cmd_matches(*c, name@) && c.flags.wf() && c.bucket != Some(
                    BucketName::All,
                ) && exists|i: int| 0 <= i < self.cmds@.len() && self.cmds@[i] == *c,
                None => forall|i: int| 0 <= i < self.cmds@.len() ==> !spec_cmd_matches(
                    #[trigger] self.cmds@[i],
                    name@,
                ),
            },
    {
        let n = self.cmds.len();
        let mut i: usize = 0;

        while i < n
            invariant
                self.wf(),
                i <= n,
                n == self.cmds@.len(),
                forall|j: int| 0 <= j < i ==> !spec_cmd_matches(#[trigger] self.cmds@[j], name@),
            decreases n - i,
        {
            let c = &self.cmds[i];

            if str_eq(c.name.as_str(), name) {
                proof {
                    assert(self.cmds@[i as int] == *c);
                    assert(self.cmds@[i as int].flags.wf());
                }
                return Some(c);
            }

            let mut a: usize = 0;

            while a < c.aliases.len()
                invariant
                    self.wf(),
                    0 <= i < self.cmds@.len(),
                    *c == self.cmds@[i as int],
                    a <= c.aliases@.len(),
                    c.aliases.deep_view().len() == c.aliases@.len(),
                    forall|j: int| 0 <= j < a ==> c.aliases.deep_view()[j] != name@,
                    forall|j: int| 0 <= j < c.aliases@.len() ==> c.aliases.deep_view()[j]
                        == #[trigger] c.aliases@[j]@,
                decreases c.aliases@.len() - a,
            {
                if str_eq(c.aliases[a].as_str(), name) {
                    proof {
                        assert(c.aliases@[a as int]@ == name@);
                        assert(c.aliases.deep_view()[a as int] == name@);
                        assert(spec_cmd_matches(*c, name@));
                        assert(self.cmds@[i as int] == *c);
                        assert(self.cmds@[i as int].flags.wf());
                    }
                    return Some(c);
                }
                a = a + 1;
            }

            proof {
                assert(forall|j: int| 0 <= j < c.aliases.deep_view().len()
                    ==> #[trigger] c.aliases.deep_view()[j] != name@);
                if c.aliases.deep_view().contains(name@) {
                    let j = choose|j: int|
                        0 <= j < c.aliases.deep_view().len() && c.aliases.deep_view()[j] == name@;
                    assert(false);
                }
                assert(!spec_cmd_matches(*c, name@));
            }

            i = i + 1;
        }

        None
    }
}

} // verus!
