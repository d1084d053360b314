//! Generations: numbered snapshots of the system configuration, each a
//! directory under the generations directory, with `current` pointing at the
//! active one.
use crate::text::{
    chars_of,
    decimal,
    join,
    lemma_parse_decimal,
    parse_u64,
    parse_unsigned,
    path_join,
    u64_to_string,
};
use vstd::prelude::*;

verus! {

broadcast use vstd::seq_lib::group_to_multiset_ensures;

/// Ascending order.
pub open spec fn ascending(s: Seq<u64>) -> bool {
    forall|i: int, j: int| 0 <= i <= j < s.len() ==> s[i] <= s[j]
}

/// The generation number that a directory entry's name stands for, if any:
/// the name read as a `u64`.
pub open spec fn entry_id(name: Seq<char>) -> Option<u64> {
    match parse_unsigned(name, u64::MAX as nat) {
        Some(n) => Some(n as u64),
        None => None,
    }
}

/// The numbers of the entries that name a generation, in entry order.
pub open spec fn entry_ids(names: Seq<Seq<char>>) -> Seq<u64>
    decreases names.len(),
{
    if names.len() == 0 {
        seq![]
    } else {
        let rest = entry_ids(names.drop_last());
        match entry_id(names.last()) {
            Some(n) => rest.push(n),
            None => rest,
        }
    }
}

/// The names of a list of entries.
pub open spec fn names_of(entries: Seq<String>) -> Seq<Seq<char>> {
    entries.map_values(|e: String| e@)
}

/// The largest number of a list, or 0 for none.
pub open spec fn max_id(ids: Seq<u64>) -> nat
    decreases ids.len(),
{
    if ids.len() == 0 {
        0
    } else {
        let m = max_id(ids.drop_last());
        if ids.last() > m {
            ids.last() as nat
        } else {
            m
        }
    }
}

/// A generation's directory is named by its number, and that name lists
/// back as the same number.
pub proof fn law_generation_name_roundtrip(id: u64)
    ensures
        entry_id(decimal(id as nat)) == Some(id),
{
    lemma_parse_decimal(id as nat, u64::MAX as nat);
}

/// A new generation's number is above every existing one, so creating a
/// generation never reuses a number.
pub proof fn law_next_id_is_fresh(existing: Seq<u64>)
    ensures
        forall|i: int| 0 <= i < existing.len() ==> existing[i] < max_id(existing) + 1,
    decreases existing.len(),
{
    if existing.len() > 0 {
        let rest = existing.drop_last();
        law_next_id_is_fresh(rest);
        assert forall|i: int| 0 <= i < existing.len() implies existing[i] < max_id(existing) + 1 by {
            if i < rest.len() {
                assert(existing[i] == rest[i]);
            }
        }
    }
}

/// Two ascending lists with the same numbers are the same list: the
/// listing of a set of entries is determined by the entries alone.
pub proof fn law_listing_is_unique(a: Seq<u64>, b: Seq<u64>)
    requires
        ascending(a),
        ascending(b),
        a.to_multiset() == b.to_multiset(),
    ensures
        a == b,
{
    let leq = |x: u64, y: u64| x <= y;
    assert(vstd::relations::sorted_by(a, leq));
    assert(vstd::relations::sorted_by(b, leq));
    assert(vstd::relations::total_ordering(leq));
    vstd::seq_lib::lemma_sorted_unique(a, b, leq);
}

/// Paths that switching to a generation touches: the link is first made at
/// `temp_link`, then renamed over `current_link`, so the switch is atomic.
pub struct SwitchPlan {
    pub target: String,
    pub temp_link: String,
    pub current_link: String,
}

/// Where a new generation goes.
pub struct NewGeneration {
    pub id: u64,
    pub dir: String,
    pub config_file: String,
}

/// Manages the generations under one directory.
pub struct GenerationManager {
    generations_dir: String,
}

/// Where `x` goes in the ascending `s`: after every element not above it.
fn insertion_point(s: &Vec<u64>, x: u64) -> (p: usize)
    requires
        ascending(s@),
    ensures
        p <= s.len(),
        forall|i: int| 0 <= i < p ==> s@[i] <= x,
        forall|i: int| p <= i < s.len() ==> s@[i] > x,
{
    let mut p: usize = 0;
    while p < s.len() && s[p] <= x
        invariant
            p <= s.len(),
            ascending(s@),
            forall|i: int| 0 <= i < p ==> s@[i] <= x,
        decreases s.len() - p,
    {
        p = p + 1;
    }
    p
}

/// Sorts numbers in ascending order.
fn sort_ids(v: Vec<u64>) -> (r: Vec<u64>)
    ensures
        ascending(r@),
        r@.to_multiset() == v@.to_multiset(),
{
    let mut r: Vec<u64> = Vec::new();
    let mut k: usize = 0;
    while k < v.len()
        invariant
            k <= v.len(),
            ascending(r@),
            r@.to_multiset() == v@.take(k as int).to_multiset(),
        decreases v.len() - k,
    {
        let x = v[k];
        let p = insertion_point(&r, x);
        let ghost before = r@;
        r.insert(p, x);
        proof {
            assert(v@.take(k + 1) =~= v@.take(k as int).push(x));
            assert(r@ == before.insert(p as int, x));
            assert forall|i: int, j: int| 0 <= i <= j < r@.len() implies r@[i] <= r@[j] by {
                if i < p && j > p {
                    assert(r@[i] == before[i]);
                    assert(r@[j] == before[j - 1]);
                } else if i < p && j == p {
                    assert(r@[i] == before[i]);
                } else if i == p && j > p {
                    assert(r@[j] == before[j - 1]);
                } else if i > p {
                    assert(r@[i] == before[i - 1]);
                    assert(r@[j] == before[j - 1]);
                } else if j < p {
                    assert(r@[i] == before[i]);
                    assert(r@[j] == before[j]);
                }
            }
        }
        k = k + 1;
    }
    assert(v@.take(v.len() as int) =~= v@);
    r
}

impl GenerationManager {
    /// The generations directory.
    pub closed spec fn dir(&self) -> Seq<char> {
        self.generations_dir@
    }

    /// A manager of the generations under `generations_dir`.
    pub fn new(generations_dir: String) -> (r: Self)
        ensures
            r.dir() == generations_dir@,
    {
        GenerationManager { generations_dir }
    }

    /// Directory of generation `gen_id`: `<dir>/<gen_id>`.
    pub fn generation_path(&self, gen_id: u64) -> (r: String)
        ensures
            r@ == path_join(self.dir(), decimal(gen_id as nat)),
    {
        let name = u64_to_string(gen_id);
        join(self.generations_dir.as_str(), name.as_str())
    }

    /// The number after the largest existing generation (1 when there is
    /// none); `None` when that number does not fit.
    pub fn next_generation_id(existing: &[u64]) -> (r: Option<u64>)
        ensures
            r matches Some(n) ==> n == max_id(existing@) + 1,
            r is None <==> max_id(existing@) + 1 > u64::MAX,
    {
        let mut m: u64 = 0;
        let mut i: usize = 0;
        while i < existing.len()
            invariant
                i <= existing.len(),
                m == max_id(existing@.take(i as int)),
            decreases existing.len() - i,
        {
            proof {
                assert(existing@.take(i + 1).drop_last() =~= existing@.take(i as int));
            }
            if existing[i] > m {
                m = existing[i];
            }
            i = i + 1;
        }
        assert(existing@.take(existing.len() as int) =~= existing@);
        if m == u64::MAX {
            None
        } else {
            Some(m + 1)
        }
    }

    /// Where a new generation goes, given the numbers that exist: its number
    /// (see `next_generation_id`), its directory and the configuration
    /// snapshot `config.toml` in it.
    pub fn create_generation(&self, existing: &[u64]) -> (r: Option<NewGeneration>)
        ensures
            r is None <==> max_id(existing@) + 1 > u64::MAX,
            r matches Some(g) ==> {
                &&& g.id == max_id(existing@) + 1
                &&& g.dir@ == path_join(self.dir(), decimal(g.id as nat))
                &&& g.config_file@ == path_join(g.dir@, "config.toml"@)
            },
    {
        match Self::next_generation_id(existing) {
            None => None,
            Some(id) => {
                let dir = self.generation_path(id);
                let config_file = join(dir.as_str(), "config.toml");
                Some(NewGeneration { id, dir, config_file })
            },
        }
    }

    /// The paths of an atomic switch to generation `gen_id`.
    pub fn switch_generation(&self, gen_id: u64) -> (r: SwitchPlan)
        ensures
            r.target@ == path_join(self.dir(), decimal(gen_id as nat)),
            r.temp_link@ == path_join(self.dir(), ".current.tmp"@),
            r.current_link@ == path_join(self.dir(), "current"@),
    {
        let target = self.generation_path(gen_id);
        let temp_link = join(self.generations_dir.as_str(), ".current.tmp");
        let current_link = join(self.generations_dir.as_str(), "current");
        SwitchPlan { target, temp_link, current_link }
    }

    /// The generations among the names of the directory's entries, in
    /// ascending order: every name that reads as a `u64`, once per entry.
    pub fn list_generations(&self, entries: &[String]) -> (r: Vec<u64>)
        ensures
            ascending(r@),
            r@.to_multiset() == entry_ids(names_of(entries@)).to_multiset(),
    {
        let mut found: Vec<u64> = Vec::new();
        let mut i: usize = 0;
        while i < entries.len()
            invariant
                i <= entries.len(),
                found@ == entry_ids(names_of(entries@.take(i as int))),
            decreases entries.len() - i,
        {
            let chars = chars_of(entries[i].as_str());
            proof {
                assert(names_of(entries@.take(i + 1)).drop_last() =~= names_of(
                    entries@.take(i as int),
                ));
                assert(names_of(entries@.take(i + 1)).last() == entries@[i as int]@);
            }
            match parse_u64(chars.as_slice()) {
                Some(n) => {
                    found.push(n);
                },
                None => {},
            }
            i = i + 1;
        }
        assert(entries@.take(entries.len() as int) =~= entries@);
        sort_ids(found)
    }
}

} // verus!
