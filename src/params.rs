//! The parameters of one request: a mapping from parameter name to value.
use vstd::prelude::*;
use vstd::string::StringExecFns;

verus! {

/// Parameters extracted from the user's utterance, keyed by parameter name.
///
/// The entries are kept in a vector whose keys are pairwise distinct, so the
/// set behaves as a finite map from name to value.
#[derive(Debug)]
pub struct ParameterSet {
    entries: Vec<(String, String)>,
}

/// Whether `key` is the name of some entry.
pub open spec fn has_key(entries: Seq<(String, String)>, key: Seq<char>) -> bool {
    exists|i: int| 0 <= i < entries.len() && #[trigger] entries[i].0@ == key
}

/// Whether no two entries share a name.
pub open spec fn keys_distinct(entries: Seq<(String, String)>) -> bool {
    forall|i: int, j: int|
        0 <= i < entries.len() && 0 <= j < entries.len() && i != j ==> #[trigger] entries[i].0@
            != #[trigger] entries[j].0@
}

/// The mapping that a sequence of entries stands for.
pub open spec fn entries_map(entries: Seq<(String, String)>) -> Map<Seq<char>, Seq<char>> {
    Map::new(
        |k: Seq<char>| has_key(entries, k),
        |k: Seq<char>|
            entries[choose|i: int| 0 <= i < entries.len() && #[trigger] entries[i].0@ == k].1@,
    )
}

/// Where the entry of a name stands, its value is the mapping's value.
proof fn lemma_entry_value(entries: Seq<(String, String)>, i: int)
    requires
        keys_distinct(entries),
        0 <= i < entries.len(),
    ensures
        entries_map(entries).contains_key(entries[i].0@),
        entries_map(entries)[entries[i].0@] == entries[i].1@,
{
    let k = entries[i].0@;
    assert(has_key(entries, k));
    let j = choose|j: int| 0 <= j < entries.len() && #[trigger] entries[j].0@ == k;
    assert(j == i);
}

/// Writing the entry `(k, v)` at index `i`, over the entry of the same name or
/// just past the end, gives the mapping with `k` bound to `v`.
proof fn lemma_write_entry(
    before: Seq<(String, String)>,
    after: Seq<(String, String)>,
    i: int,
    k: Seq<char>,
    v: Seq<char>,
)
    requires
        keys_distinct(before),
        keys_distinct(after),
        0 <= i <= before.len(),
        i < after.len(),
        after[i].0@ == k,
        after[i].1@ == v,
        i < before.len() ==> before[i].0@ == k && after.len() == before.len(),
        i == before.len() ==> after.len() == before.len() + 1,
        forall|j: int| 0 <= j < before.len() && j != i ==> after[j] == before[j],
    ensures
        entries_map(after) == entries_map(before).insert(k, v),
{
    let m0 = entries_map(before);
    let m1 = entries_map(after);
    assert forall|key: Seq<char>| #[trigger] m1.contains_key(key) == (m0.contains_key(key) || key == k)
        by {
        if m0.contains_key(key) {
            let j = choose|j: int| 0 <= j < before.len() && #[trigger] before[j].0@ == key;
            if j != i {
                assert(after[j].0@ == key);
            }
        }
        if m1.contains_key(key) && key != k {
            let j = choose|j: int| 0 <= j < after.len() && #[trigger] after[j].0@ == key;
            assert(j != i);
            assert(before[j].0@ == key);
        }
        if key == k {
            assert(after[i].0@ == key);
        }
    }
    assert forall|key: Seq<char>| m1.contains_key(key) implies #[trigger] m1[key] == m0.insert(k, v)[key]
        by {
        if key == k {
            lemma_entry_value(after, i);
        } else {
            let j = choose|j: int| 0 <= j < after.len() && #[trigger] after[j].0@ == key;
            assert(j != i);
            lemma_entry_value(after, j);
            lemma_entry_value(before, j);
        }
    }
    assert(m1 =~= m0.insert(k, v));
}

impl View for ParameterSet {
    type V = Map<Seq<char>, Seq<char>>;

    closed spec fn view(&self) -> Map<Seq<char>, Seq<char>> {
        entries_map(self.entries@)
    }
}

impl ParameterSet {
    #[verifier::type_invariant]
    spec fn distinct(self) -> bool {
        keys_distinct(self.entries@)
    }

    /// An empty parameter set.
    pub fn new() -> (r: ParameterSet)
        ensures
            r@ == Map::<Seq<char>, Seq<char>>::empty(),
    {
        let r = ParameterSet { entries: Vec::new() };
        assert(r@ =~= Map::<Seq<char>, Seq<char>>::empty());
        r
    }

    /// The index of the entry named `key`, if there is one.
    fn position(&self, key: &str) -> (r: Option<usize>)
        ensures
            match r {
                Some(i) => i < self.entries@.len() && self.entries@[i as int].0@ == key@,
                None => !has_key(self.entries@, key@),
            },
    {
        let wanted = String::from_str(key);
        let mut i: usize = 0;
        while i < self.entries.len()
            invariant
                wanted@ == key@,
                i <= self.entries@.len(),
                forall|j: int| 0 <= j < i ==> #[trigger] self.entries@[j].0@ != key@,
            decreases self.entries@.len() - i,
        {
            if self.entries[i].0 == wanted {
                return Some(i);
            }
            i = i + 1;
        }
        None
    }

    /// Binds `key` to `value`, replacing the value that `key` had before.
    pub fn insert(&mut self, key: String, value: String)
        ensures
            final(self)@ == old(self)@.insert(key@, value@),
    {
        proof {
            use_type_invariant(&*self);
        }
        let found = self.position(key.as_str());
        let mut entries: Vec<(String, String)> = Vec::new();
        std::mem::swap(&mut entries, &mut self.entries);
        let ghost before = entries@;
        let ghost (k, v) = (key@, value@);
        let i: usize = match found {
            Some(i) => {
                entries[i] = (key, value);
                i
            },
            None => {
                entries.push((key, value));
                entries.len() - 1
            },
        };
        proof {
            assert(keys_distinct(entries@)) by {
                assert forall|a: int, b: int|
                    0 <= a < entries@.len() && 0 <= b < entries@.len() && a != b implies #[trigger] entries@[a].0@
                    != #[trigger] entries@[b].0@ by {
                    if a != i as int && b != i as int {
                        assert(entries@[a] == before[a] && entries@[b] == before[b]);
                    } else if a == i as int {
                        assert(entries@[b] == before[b]);
                        if found is None {
                            assert(!has_key(before, k));
                        }
                    } else {
                        assert(entries@[a] == before[a]);
                        if found is None {
                            assert(!has_key(before, k));
                        }
                    }
                }
            }
            lemma_write_entry(before, entries@, i as int, k, v);
        }
        self.entries = entries;
    }

    /// The value of the parameter named `key`, if the set holds one.
    pub fn get(&self, key: &str) -> (r: Option<&String>)
        ensures
            match r {
                Some(v) => self@.contains_key(key@) && v@ == self@[key@],
                None => !self@.contains_key(key@),
            },
    {
        proof {
            use_type_invariant(self);
        }
        match self.position(key) {
            Some(i) => {
                proof {
                    lemma_entry_value(self.entries@, i as int);
                }
                Some(&self.entries[i].1)
            },
            None => None,
        }
    }
}

} // verus!
