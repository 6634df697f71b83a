use vstd::prelude::*;

use crate::util::{all_digits, dec_value, parse_u64, unicode_whitespace};

verus! {

/// The credentials the bot starts with.
#[derive(Debug)]
pub struct Tokens {
    pub discord: String,
    pub osu_client_id: u64,
    pub osu_client_secret: String,
}

/// Where the bot keeps its working files.
#[derive(Debug)]
pub struct Paths {
    pub folders: String,
    pub maps: String,
    pub server_settings: String,
}

/// The process-lifetime configuration, loaded once at startup from
/// the environment.
#[derive(Debug)]
pub struct BotConfig {
    pub tokens: Tokens,
    pub paths: Paths,
    pub owners: Vec<u64>,
    pub dev_guild: u64,
}

/// Which environment value could not be parsed.
#[derive(Clone, Copy, PartialEq, Eq, Structural, Debug)]
pub enum ConfigError {
    OsuClientId,
    Owners,
    DevGuild,
}

/// The position of the first non-whitespace character in `s[from..to]`.
pub open spec fn spec_ltrim(s: Seq<char>, from: int, to: int) -> int
    decreases to - from,
{
    if from >= to {
        to
    } else if unicode_whitespace(s[from]) {
        spec_ltrim(s, from + 1, to)
    } else {
        from
    }
}

/// The position after the last non-whitespace character in
/// `s[from..to]`.
pub open spec fn spec_rtrim(s: Seq<char>, from: int, to: int) -> int
    decreases to - from,
{
    if to <= from {
        from
    } else if unicode_whitespace(s[to - 1]) {
        spec_rtrim(s, from, to - 1)
    } else {
        to
    }
}

/// The position of the first comma in `s[from..to]`, or `to`.
pub open spec fn spec_find_comma(s: Seq<char>, from: int, to: int) -> int
    decreases to - from,
{
    if from >= to {
        to
    } else if s[from] == ',' {
        from
    } else {
        spec_find_comma(s, from + 1, to)
    }
}

/// Whether `s[from..to]`, trimmed of surrounding whitespace, is a
/// number that fits, and that number.
pub open spec fn spec_trimmed_number(s: Seq<char>, from: int, to: int) -> Option<u64> {
    let a = spec_ltrim(s, from, to);
    let b = spec_rtrim(s, a, to);
    let digits = s.subrange(a, b);
    if digits.len() > 0 && all_digits(digits) && dec_value(digits) <= u64::MAX {
        Some(dec_value(digits) as u64)
    } else {
        None
    }
}

/// The numbers of the comma-separated list `s[from..to]`, each
/// tolerating surrounding whitespace; nothing when one of them is no
/// number.
pub open spec fn spec_id_list(s: Seq<char>, from: int, to: int) -> Option<Seq<u64>>
    decreases to - from,
{
    let c = spec_find_comma(s, from, to);
    let next = if c < from {
        from
    } else {
        c
    };
    match spec_trimmed_number(s, from, c) {
        None => None,
        Some(v) => if c >= to {
            Some(seq![v])
        } else {
            match spec_id_list(s, next + 1, to) {
                None => None,
                Some(rest) => Some(seq![v] + rest),
            }
        },
    }
}

/// What parsing a user-id list environment value yields: the value
/// must be bracketed, and each comma-separated element, whitespace
/// around it tolerated, must be a number.
pub open spec fn spec_parse_id_list(s: Seq<char>) -> Option<Seq<u64>> {
    if s.len() >= 2 && s[0] == '[' && s[s.len() - 1] == ']' {
        spec_id_list(s, 1, s.len() - 1)
    } else {
        None
    }
}

fn find_comma(s: &str, from: usize, to: usize) -> (r: usize)
    requires
        from <= to <= s@.len(),
    ensures
        r == spec_find_comma(s@, from as int, to as int),
        from <= r <= to,
{
    let mut i: usize = from;

    while i < to
        invariant
            from <= i <= to <= s@.len(),
            spec_find_comma(s@, from as int, to as int) == spec_find_comma(s@, i as int, to as int),
        decreases to - i,
    {
        if s.get_char(i) == ',' {
            return i;
        }
        i = i + 1;
    }

    to
}

fn ltrim(s: &str, from: usize, to: usize) -> (r: usize)
    requires
        from <= to <= s@.len(),
    ensures
        r == spec_ltrim(s@, from as int, to as int),
        from <= r <= to,
{
    let mut i: usize = from;

    while i < to
        invariant
            from <= i <= to <= s@.len(),
            spec_ltrim(s@, from as int, to as int) == spec_ltrim(s@, i as int, to as int),
        decreases to - i,
    {
        if !crate::util::is_whitespace_char(s.get_char(i)) {
            return i;
        }
        i = i + 1;
    }

    to
}

fn rtrim(s: &str, from: usize, to: usize) -> (r: usize)
    requires
        from <= to <= s@.len(),
    ensures
        r == spec_rtrim(s@, from as int, to as int),
        from <= r <= to,
{
    let mut i: usize = to;

    while i > from
        invariant
            from <= i <= to <= s@.len(),
            spec_rtrim(s@, from as int, to as int) == spec_rtrim(s@, from as int, i as int),
        decreases i,
    {
        if !crate::util::is_whitespace_char(s.get_char(i - 1)) {
            return i;
        }
        i = i - 1;
    }

    from
}

/// One element of the list: `s[from..to]` trimmed and parsed.
fn parse_trimmed_number(s: &str, from: usize, to: usize) -> (r: Option<u64>)
    requires
        from <= to <= s@.len(),
    ensures
        r == spec_trimmed_number(s@, from as int, to as int),
{
    let a = ltrim(s, from, to);
    let b = rtrim(s, a, to);
    let digits = s.substring_char(a, b);

    proof {
        assert(digits@ == s@.subrange(a as int, b as int));
    }

    parse_u64(digits)
}

/// The elements of `s[from..to]`, comma separated.
fn id_list_from(s: &str, from: usize, to: usize) -> (r: Option<Vec<u64>>)
    requires
        from <= to <= s@.len(),
    ensures
        match r {
            Some(v) => spec_id_list(s@, from as int, to as int) == Some(v@),
            None => spec_id_list(s@, from as int, to as int) is None,
        },
    decreases to - from,
{
    let c = find_comma(s, from, to);

    match parse_trimmed_number(s, from, c) {
        None => None,
        Some(v) => {
            if c >= to {
                let mut out: Vec<u64> = Vec::new();
                out.push(v);
                proof {
                    assert(out@ =~= seq![v]);
                }
                Some(out)
            } else {
                match id_list_from(s, c + 1, to) {
                    None => None,
                    Some(rest) => {
                        let mut out: Vec<u64> = Vec::new();
                        out.push(v);

                        let n = rest.len();
                        let mut j: usize = 0;

                        while j < n
                            invariant
                                j <= n,
                                n == rest@.len(),
                                out@ == seq![v] + rest@.take(j as int),
                            decreases n - j,
                        {
                            out.push(rest[j]);
                            proof {
                                assert(seq![v] + rest@.take(j as int + 1) =~= (seq![v]
                                    + rest@.take(j as int)).push(rest@[j as int]));
                            }
                            j = j + 1;
                        }

                        proof {
                            assert(rest@.take(n as int) =~= rest@);
                            assert(out@ =~= seq![v] + rest@);
                        }

                        Some(out)
                    },
                }
            }
        },
    }
}

/// Parse a user-id list such as `[1,2,3]`; whitespace is tolerated
/// around each number inside the brackets.
pub fn parse_id_list(s: &str) -> (r: Option<Vec<u64>>)
    ensures
        match r {
            Some(ids) => spec_parse_id_list(s@) == Some(ids@),
            None => spec_parse_id_list(s@) is None,
        },
{
    let len = s.unicode_len();

    if len < 2 {
        return None;
    }

    proof {
        reveal_strlit("[");
        reveal_strlit("]");
    }

    if s.get_char(0) != '[' || s.get_char(len - 1) != ']' {
        return None;
    }

    id_list_from(s, 1, len - 1)
}

/// Parse a small number, as the shard count uses it.
pub fn parse_u16(s: &str) -> (r: Option<u16>)
    ensures
        match r {
            Some(v) => s@.len() > 0 && all_digits(s@) && dec_value(s@) == v,
            None => s@.len() == 0 || !all_digits(s@) || dec_value(s@) > u16::MAX,
        },
{
    match parse_u64(s) {
        Some(v) => {
            if v <= u16::MAX as u64 {
                Some(v as u16)
            } else {
                None
            }
        },
        None => {
            proof {
                if s@.len() > 0 && all_digits(s@) && dec_value(s@) <= u16::MAX {
                    assert(dec_value(s@) <= u64::MAX);
                }
            }
            None
        },
    }
}

impl BotConfig {
    /// Assemble the configuration from the raw environment values.
    /// The string-valued entries are taken as they stand; the numeric
    /// ones must parse, else the startup fails with the entry's error.
    pub fn init(
        discord_token: String,
        osu_client_id: &str,
        osu_client_secret: String,
        folders_path: String,
        map_path: String,
        server_settings_path: String,
        owners: &str,
        dev_guild: &str,
    ) -> (r: Result<BotConfig, ConfigError>)
        ensures
            match r {
                Ok(config) => {
                    &&& config.tokens.discord == discord_token
                    &&& Some(config.tokens.osu_client_id) == parse_u64_model(osu_client_id@)
                    &&& config.tokens.osu_client_secret == osu_client_secret
                    &&& config.paths.folders == folders_path
                    &&& config.paths.maps == map_path
                    &&& config.paths.server_settings == server_settings_path
                    &&& Some(config.owners@) == spec_parse_id_list(owners@)
                    &&& Some(config.dev_guild) == parse_u64_model(dev_guild@)
                },
                Err(ConfigError::OsuClientId) => parse_u64_model(osu_client_id@) is None,
                Err(ConfigError::Owners) => parse_u64_model(osu_client_id@) is Some
                    && spec_parse_id_list(owners@) is None,
                Err(ConfigError::DevGuild) => parse_u64_model(osu_client_id@) is Some
                    && spec_parse_id_list(owners@) is Some && parse_u64_model(dev_guild@)
                    is None,
            },
    {
        let osu_client_id = match parse_u64(osu_client_id) {
            Some(v) => v,
            None => {
                return Err(ConfigError::OsuClientId);
            },
        };

        let owners = match parse_id_list(owners) {
            Some(ids) => ids,
            None => {
                return Err(ConfigError::Owners);
            },
        };

        let dev_guild = match parse_u64(dev_guild) {
            Some(v) => v,
            None => {
                return Err(ConfigError::DevGuild);
            },
        };

        Ok(
            BotConfig {
                tokens: Tokens {
                    discord: discord_token,
                    osu_client_id,
                    osu_client_secret,
                },
                paths: Paths {
                    folders: folders_path,
                    maps: map_path,
                    server_settings: server_settings_path,
                },
                owners,
                dev_guild,
            },
        )
    }
}

/// What `parse_u64` accepts: a nonempty all-digit string whose value
/// fits.
pub open spec fn parse_u64_model(s: Seq<char>) -> Option<u64> {
    if s.len() > 0 && all_digits(s) && dec_value(s) <= u64::MAX {
        Some(dec_value(s) as u64)
    } else {
        None
    }
}

} // verus!
