use vstd::prelude::*;

use radix_trie::{Trie, TrieCommon};

use crate::buckets::BucketName;
use crate::policy::CommandFlags;

verus! {

#[verifier::external_type_specification]
#[verifier::external_body]
#[verifier::reject_recursive_types(K)]
#[verifier::reject_recursive_types(V)]
pub struct ExTrie<K, V>(Trie<K, V>);

/// The key-value pairs a trie holds. This library only builds tries
/// with `trie_new` and `trie_insert`, so every node of such a trie has
/// a stored key at or below it.
pub uninterp spec fn trie_entries(t: Trie<String, u64>) -> Map<Seq<char>, u64>;

/// Relies on radix_trie::Trie::new: the fresh trie holds no entries.
#[verifier::external_body]
fn trie_new() -> (r: Trie<String, u64>)
    ensures
        trie_entries(r) =~= Map::empty(),
{
    Trie::new()
}

/// Relies on radix_trie::Trie::insert: stores the pair, replacing any
/// previous value of the key.
#[verifier::external_body]
fn trie_insert(t: &mut Trie<String, u64>, key: String, value: u64)
    ensures
        trie_entries(*final(t)) == trie_entries(*old(t)).insert(key@, value),
{
    t.insert(key, value);
}

/// Relies on radix_trie::Trie::get: the value stored under the key,
/// if any.
#[verifier::external_body]
fn trie_get(t: &Trie<String, u64>, key: &str) -> (r: Option<u64>)
    ensures
        match r {
            Some(v) => trie_entries(*t).contains_key(key@) && trie_entries(*t)[key@] == v,
            None => !trie_entries(*t).contains_key(key@),
        },
{
    t.get(key).copied()
}

/// Relies on radix_trie::TrieCommon::keys: every stored key, each
/// exactly once.
#[verifier::external_body]
fn trie_keys(t: &Trie<String, u64>) -> (r: Vec<String>)
    ensures
        forall|i: int, j: int|
            #![trigger r@[i]@, r@[j]@]
            0 <= i < j < r@.len() ==> r@[i]@ != r@[j]@,
        forall|i: int| 0 <= i < r@.len() ==> trie_entries(*t).contains_key(#[trigger] r@[i]@),
        forall|k: Seq<char>|
            #[trigger] trie_entries(*t).contains_key(k) ==> exists|i: int|
                0 <= i < r@.len() && r@[i]@ == k,
{
    t.keys().cloned().collect()
}

/// Relies on radix_trie::Trie::get_raw_descendant and
/// radix_trie::TrieCommon::keys: the keys of the subtrie below the
/// prefix are exactly the stored keys the prefix begins — key
/// encodings are UTF-8 bytes, and a byte-level prefix of valid UTF-8
/// is a character-level prefix and conversely.
#[verifier::external_body]
fn trie_descendant_keys(t: &Trie<String, u64>, prefix: &str) -> (r: Vec<String>)
    ensures
        forall|i: int, j: int|
            #![trigger r@[i]@, r@[j]@]
            0 <= i < j < r@.len() ==> r@[i]@ != r@[j]@,
        forall|i: int|
            0 <= i < r@.len() ==> trie_entries(*t).contains_key(#[trigger] r@[i]@)
                && prefix@.is_prefix_of(r@[i]@),
        forall|k: Seq<char>|
            #[trigger] trie_entries(*t).contains_key(k) && prefix@.is_prefix_of(k)
                ==> exists|i: int| 0 <= i < r@.len() && r@[i]@ == k,
{
    match t.get_raw_descendant(prefix) {
        Some(sub) => sub.keys().cloned().collect(),
        None => Vec::new(),
    }
}

/// One slash command of the registry: its name, its policy switches
/// and its cooldown bucket.
pub struct SlashCommand {
    pub name: String,
    pub flags: CommandFlags,
    pub bucket: Option<BucketName>,
}

/// The slash command index: a prefix trie over the names, carrying for
/// each name the position of its descriptor.
pub struct SlashCommands {
    pub trie: Trie<String, u64>,
    pub commands: Vec<SlashCommand>,
}

impl SlashCommands {
    /// The trie holds exactly the descriptor names, each mapped to its
    /// descriptor's position.
    pub open spec fn wf(&self) -> bool {
        &&& forall|i: int|
            0 <= i < self.commands@.len() ==> trie_entries(self.trie).contains_key(
                (#[trigger] self.commands@[i]).name@,
            ) && trie_entries(self.trie)[self.commands@[i].name@] == i
        &&& forall|k: Seq<char>|
            #[trigger] trie_entries(self.trie).contains_key(k) ==> 0 <= trie_entries(self.trie)[k]
                < self.commands@.len() && self.commands@[trie_entries(self.trie)[k] as int].name@
                == k
        &&& forall|i: int|
            0 <= i < self.commands@.len() ==> (#[trigger] self.commands@[i]).bucket != Some(
                BucketName::All,
            ) && self.commands@[i].flags.wf()
    }

    /// Whether `name` names a registered command.
    pub open spec fn spec_registered(&self, name: Seq<char>) -> bool {
        trie_entries(self.trie).contains_key(name)
    }

    /// Index the given descriptors. Building the registry is the
    /// startup's job and happens once; names are distinct.
    pub fn new(commands: Vec<SlashCommand>) -> (r: Self)
        requires
            forall|i: int, j: int|
                #![trigger commands@[i], commands@[j]]
                0 <= i < j < commands@.len() ==> commands@[i].name@ != commands@[j].name@,
            forall|i: int|
                0 <= i < commands@.len() ==> (#[trigger] commands@[i]).bucket != Some(
                    BucketName::All,
                ) && commands@[i].flags.wf(),
        ensures
            r.wf(),
            r.commands == commands,
            forall|k: Seq<char>| #[trigger] r.spec_registered(k) <==> exists|i: int|
                0 <= i < commands@.len() && (#[trigger] commands@[i].name@) == k,
    {
        let n = commands.len();
        let mut trie = trie_new();
        let mut i: usize = 0;

        while i < n
            invariant
                i <= n,
                n == commands@.len(),
                forall|a: int, b: int|
                    #![trigger commands@[a], commands@[b]]
                    0 <= a < b < commands@.len() ==> commands@[a].name@ != commands@[b].name@,
                forall|j: int|
                    0 <= j < i ==> trie_entries(trie).contains_key(
                        (#[trigger] commands@[j]).name@,
                    ) && trie_entries(trie)[commands@[j].name@] == j,
                forall|k: Seq<char>|
                    #[trigger] trie_entries(trie).contains_key(k) ==> 0 <= trie_entries(trie)[k]
                        < i && commands@[trie_entries(trie)[k] as int].name@ == k,
            decreases n - i,
        {
            let name = commands[i].name.clone();
            trie_insert(&mut trie, name, i as u64);
            i = i + 1;
        }

        Self { trie, commands }
    }

    /// The descriptor registered under `name`.
    pub fn command(&self, name: &str) -> (r: Option<&SlashCommand>)
        requires
            self.wf(),
        ensures
            match r {
                Some(c) => self.spec_registered(name@) && c.name@ == name@ && c.flags.wf()
                    && c.bucket != Some(BucketName::All) && exists|i: int|
                    0 <= i < self.commands@.len() && self.commands@[i] == *c,
                None => !self.spec_registered(name@),
            },
    {
        let n = self.commands.len();

        match trie_get(&self.trie, name) {
            Some(v) => {
                proof {
                    assert(trie_entries(self.trie).contains_key(name@));
                    assert(0 <= trie_entries(self.trie)[name@] < self.commands@.len());
                    assert(v < n as u64);
                }
                let idx = v as usize;
                proof {
                    assert(self.commands@[idx as int].name@ == name@);
                }
                Some(&self.commands[idx])
            },
            None => None,
        }
    }

    /// Every registered name, each exactly once.
    pub fn names(&self) -> (r: Vec<String>)
        ensures
            forall|i: int, j: int|
                #![trigger r@[i]@, r@[j]@]
                0 <= i < j < r@.len() ==> r@[i]@ != r@[j]@,
            forall|i: int| 0 <= i < r@.len() ==> self.spec_registered(#[trigger] r@[i]@),
            forall|k: Seq<char>|
                #[trigger] self.spec_registered(k) ==> exists|i: int|
                    0 <= i < r@.len() && r@[i]@ == k,
    {
        trie_keys(&self.trie)
    }

    /// The registered names `prefix` begins, for autocompletion; each
    /// exactly once, and nothing when there are none.
    #[verifier::rlimit(50)]
    pub fn descendants(&self, prefix: &str) -> (r: Option<Vec<String>>)
        ensures
            match r {
                Some(v) => {
                    &&& v@.len() > 0
                    &&& forall|i: int, j: int|
                        #![trigger v@[i]@, v@[j]@]
                        0 <= i < j < v@.len() ==> v@[i]@ != v@[j]@
                    &&& forall|i: int|
                        0 <= i < v@.len() ==> self.spec_registered(#[trigger] v@[i]@)
                            && prefix@.is_prefix_of(v@[i]@)
                    &&& forall|k: Seq<char>|
                        #[trigger] self.spec_registered(k) && prefix@.is_prefix_of(k)
                            ==> v.deep_view().contains(k)
                },
                None => forall|k: Seq<char>|
                    #[trigger] self.spec_registered(k) ==> !prefix@.is_prefix_of(k),
            },
    {
        let keys = trie_descendant_keys(&self.trie, prefix);

        if keys.len() == 0 {
            proof {
                assert forall|k: Seq<char>|
                    #[trigger] self.spec_registered(k) implies !prefix@.is_prefix_of(k) by {
                    if prefix@.is_prefix_of(k) {
                        let i = choose|i: int| 0 <= i < keys@.len() && keys@[i]@ == k;
                        assert(false);
                    }
                }
            }
            return None;
        }

        proof {
            assert forall|k: Seq<char>|
                #[trigger] self.spec_registered(k) && prefix@.is_prefix_of(k) implies keys.deep_view().contains(
                k,
            ) by {
                assert(trie_entries(self.trie).contains_key(k) && prefix@.is_prefix_of(k));
                let i = choose|i: int| 0 <= i < keys@.len() && keys@[i]@ == k;
                assert(keys.deep_view()[i] == k);
            }
        }

        Some(keys)
    }
}

/// Law: a registered slash command is found again. Its name is a key
/// of the index, so `command` returns its descriptor, and the name
/// begins itself, so `descendants` of the name lists the name.
pub proof fn lemma_registered_name_found(s: &SlashCommands, name: Seq<char>)
    requires
        s.wf(),
        exists|i: int|
            0 <= i < s.commands@.len() && (#[trigger] s.commands@[i].name@) == name,
    ensures
        s.spec_registered(name),
        name.is_prefix_of(name),
{
    let i = choose|i: int|
        0 <= i < s.commands@.len() && (#[trigger] s.commands@[i].name@) == name;
    assert(trie_entries(s.trie).contains_key(s.commands@[i].name@));
    assert(name.subrange(0, name.len() as int) =~= name);
}

} // verus!
