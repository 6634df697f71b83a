use vstd::prelude::*;

use crate::util::{spec_dec_chars, spec_starts_with_at, str_starts_with_at, u64_to_string, chars_to_string};

verus! {

/// A queued render job: where it came from, where the result goes,
/// the replay file and the cut points.
pub struct ReplayData {
    pub input_channel: u64,
    pub output_channel: u64,
    pub path: String,
    pub replay: ReplaySlim,
    pub time_points: TimePoints,
    pub user: u64,
}

/// The cut points of a render, in seconds.
#[derive(Clone, Copy, PartialEq, Eq, Debug)]
pub struct TimePoints {
    pub start: Option<u16>,
    pub end: Option<u16>,
}

/// Where a queued render stands; progress in percent.
#[derive(Clone, Copy, PartialEq, Eq, Structural, Debug)]
pub enum ReplayStatus {
    Waiting,
    Downloading,
    Rendering(u8),
    Encoding(u8),
    Uploading,
}

impl ReplayStatus {
    /// The status line the queue command shows.
    pub fn status_text(&self) -> (r: String)
        ensures
            r@ == match *self {
                ReplayStatus::Waiting => "Waiting"@,
                ReplayStatus::Downloading => "Downloading"@,
                ReplayStatus::Rendering(p) => "Rendering ("@ + spec_dec_chars(p as nat) + "%)"@,
                ReplayStatus::Encoding(p) => "Encoding ("@ + spec_dec_chars(p as nat) + "%)"@,
                ReplayStatus::Uploading => "Uploading"@,
            },
    {
        match self {
            ReplayStatus::Waiting => String::from_str("Waiting"),
            ReplayStatus::Downloading => String::from_str("Downloading"),
            ReplayStatus::Rendering(p) => {
                let mut line = String::from_str("Rendering (");
                let num = u64_to_string(*p as u64);
                line.append(num.as_str());
                line.append("%)");
                line
            },
            ReplayStatus::Encoding(p) => {
                let mut line = String::from_str("Encoding (");
                let num = u64_to_string(*p as u64);
                line.append(num.as_str());
                line.append("%)");
                line
            },
            ReplayStatus::Uploading => String::from_str("Uploading"),
        }
    }
}

/// What the renderer needs of a replay: the hit counts, combo, mods
/// and names.
#[derive(PartialEq, Eq, Debug)]
pub struct ReplaySlim {
    pub beatmap_hash: Option<String>,
    pub count_300: u16,
    pub count_100: u16,
    pub count_50: u16,
    pub count_geki: u16,
    pub count_katsu: u16,
    pub count_miss: u16,
    pub max_combo: u16,
    pub mods: u32,
    pub player_name: Option<String>,
}

impl ReplaySlim {
    /// How many objects the replay hit or missed.
    pub fn total_hits(&self) -> (r: u16)
        requires
            self.count_300 + self.count_100 + self.count_50 + self.count_miss <= u16::MAX,
        ensures
            r == self.count_300 + self.count_100 + self.count_50 + self.count_miss,
    {
        self.count_300 + self.count_100 + self.count_50 + self.count_miss
    }
}

/// The last position in `s[..upto]` where `pat` starts, if any.
pub open spec fn spec_rfind(s: Seq<char>, pat: Seq<char>, upto: int) -> Option<int>
    decreases upto + 1,
{
    if upto < 0 {
        None
    } else if spec_starts_with_at(s, upto, pat) {
        Some(upto)
    } else {
        spec_rfind(s, pat, upto - 1)
    }
}

/// Find the last occurrence of `pat` that starts strictly below
/// `upto` in `s`.
fn rfind_before(s: &str, pat: &str, upto: usize) -> (r: Option<usize>)
    requires
        upto <= s@.len(),
    ensures
        match r {
            Some(i) => i < upto && spec_rfind(s@, pat@, upto - 1) == Some(i as int),
            None => spec_rfind(s@, pat@, upto - 1) is None,
        },
{
    let mut i: usize = upto;

    while i > 0
        invariant
            i <= upto <= s@.len(),
            spec_rfind(s@, pat@, upto - 1) == spec_rfind(s@, pat@, i - 1),
        decreases i,
    {
        i = i - 1;

        if str_starts_with_at(s, i, pat) {
            return Some(i);
        }
    }

    None
}

/// `name` with every underscore shown as a space.
pub open spec fn spec_underscores_to_spaces(s: Seq<char>) -> Seq<char> {
    s.map_values(|c: char| if c == '_' { ' ' } else { c })
}

/// The display name of a replay file: everything before the trailing
/// `.osr` extension and the `_Osu` suffix before it, underscores
/// shown as spaces.
pub open spec fn spec_replay_name(name: Seq<char>) -> Seq<char> {
    let ext = match spec_rfind(name, ".osr"@, name.len() - 1) {
        Some(i) => i,
        None => name.len() as int,
    };
    let cut = match spec_rfind(name, "_Osu"@, ext - 1) {
        Some(i) => i,
        None => ext,
    };
    spec_underscores_to_spaces(name.take(cut))
}

impl ReplayData {
    /// The name the rendered replay is announced under, from the file
    /// name of its path.
    pub fn replay_name(&self, file_name: &str) -> (r: String)
        ensures
            r@ == spec_replay_name(file_name@),
    {
        let len = file_name.unicode_len();

        let ext = match rfind_before(file_name, ".osr", len) {
            Some(i) => i,
            None => len,
        };

        let cut = match rfind_before(file_name, "_Osu", ext) {
            Some(i) => i,
            None => ext,
        };

        let mut out: Vec<char> = Vec::new();
        let mut i: usize = 0;

        while i < cut
            invariant
                i <= cut <= file_name@.len(),
                out@ == spec_underscores_to_spaces(file_name@.take(cut as int)).take(i as int),
            decreases cut - i,
        {
            let c = file_name.get_char(i);
            let mapped: char = if c == '_' {
                ' '
            } else {
                c
            };
            out.push(mapped);
            proof {
                let whole = spec_underscores_to_spaces(file_name@.take(cut as int));
                assert(whole.take(i as int + 1) =~= whole.take(i as int).push(whole[i as int]));
                assert(whole[i as int] == mapped);
            }
            i = i + 1;
        }

        proof {
            let whole = spec_underscores_to_spaces(file_name@.take(cut as int));
            assert(whole.take(cut as int) =~= whole);
        }

        chars_to_string(out)
    }
}

} // verus!
