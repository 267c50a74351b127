//! The decoded dataset: country names mapped to their record sequences.

use vstd::prelude::*;

use crate::record::DailyRecord;

verus! {

/// One country's entry in the dataset: its name and its chronologically
/// ordered daily records.
pub struct CountryEntry {
    pub name: String,
    pub records: Vec<DailyRecord>,
}

/// First-match lookup by exact, case-sensitive name over a sequence of
/// entries.
pub open spec fn lookup_in(entries: Seq<CountryEntry>, name: Seq<char>) -> Option<
    Seq<DailyRecord>,
>
    decreases entries.len(),
{
    if entries.len() == 0 {
        None
    } else if entries[0].name@ == name {
        Some(entries[0].records@)
    } else {
        lookup_in(entries.skip(1), name)
    }
}

/// The country names of a sequence of entries, in order.
pub open spec fn names_of(entries: Seq<CountryEntry>) -> Seq<Seq<char>> {
    entries.map_values(|e: CountryEntry| e.name@)
}

/// A mapping from country name to that country's ordered daily records.
/// Entries stay in the order in which they were inserted, which the
/// not-found listing relies on; names are unique when the dataset is
/// well formed.
pub struct CountryDataset {
    pub entries: Vec<CountryEntry>,
}

impl CountryDataset {
    /// Well-formedness: country names are pairwise distinct.
    pub open spec fn wf(&self) -> bool {
        forall|i: int, j: int|
            0 <= i < j < self.entries@.len() ==> self.entries@[i].name@
                != self.entries@[j].name@
    }

    /// The country names, in insertion order.
    pub open spec fn spec_keys(&self) -> Seq<Seq<char>> {
        names_of(self.entries@)
    }

    /// The records of the first entry whose name is `name`, if any.
    pub open spec fn spec_lookup(&self, name: Seq<char>) -> Option<Seq<DailyRecord>> {
        lookup_in(self.entries@, name)
    }

    /// An empty dataset.
    pub fn new() -> (d: CountryDataset)
        ensures
            d.wf(),
            d.entries@.len() == 0,
            d.spec_keys() == Seq::<Seq<char>>::empty(),
    {
        let d = CountryDataset { entries: Vec::new() };
        proof {
            assert(names_of(d.entries@) =~= Seq::<Seq<char>>::empty());
        }
        d
    }

    /// Add one country's records under a name not present yet. Returns
    /// whether the entry was added: a name already present is rejected, so
    /// that names stay unique, and the dataset is left unchanged.
    pub fn insert(&mut self, name: String, records: Vec<DailyRecord>) -> (added: bool)
        requires
            old(self).wf(),
        ensures
            final(self).wf(),
            added <==> old(self).spec_lookup(name@) is None,
            added ==> final(self).entries@ == old(self).entries@.push(
                (CountryEntry { name, records }),
            ),
            added ==> final(self).spec_keys() == old(self).spec_keys().push(name@),
            !added ==> *final(self) == *old(self),
    {
        let mut i: usize = 0;
        while i < self.entries.len()
            invariant
                i <= self.entries@.len(),
                *self == *old(self),
                self.wf(),
                forall|j: int| 0 <= j < i ==> self.entries@[j].name@ != name@,
            decreases self.entries@.len() - i,
        {
            if self.entries[i].name.eq(&name) {
                proof {
                    lemma_lookup_at_first_match(self.entries@, name@, i as int);
                }
                return false;
            }
            i = i + 1;
        }
        proof {
            lemma_lookup_no_match(self.entries@, name@);
        }
        let ghost before = self.entries@;
        self.entries.push(CountryEntry { name, records });
        proof {
            assert(names_of(self.entries@) =~= names_of(before).push(self.entries@.last().name@));
        }
        true
    }

    /// Exact-match lookup of one country. Returns the first (in a
    /// well-formed dataset: the only) entry's records when the name is
    /// present, and `None` when it is not.
    pub fn select<'a>(&'a self, country: &String) -> (found: Option<&'a Vec<DailyRecord>>)
        ensures
            match found {
                Some(records) => self.spec_lookup(country@) == Some(records@),
                None => self.spec_lookup(country@) is None,
            },
    {
        let mut i: usize = 0;
        while i < self.entries.len()
            invariant
                i <= self.entries@.len(),
                forall|j: int| 0 <= j < i ==> self.entries@[j].name@ != country@,
            decreases self.entries@.len() - i,
        {
            if self.entries[i].name.eq(country) {
                proof {
                    lemma_lookup_at_first_match(self.entries@, country@, i as int);
                }
                return Some(&self.entries[i].records);
            }
            i = i + 1;
        }
        proof {
            lemma_lookup_no_match(self.entries@, country@);
        }
        None
    }

    /// The lines shown when a lookup misses: a header, then every country
    /// name of the dataset, one per line, in insertion order.
    pub fn available_countries(&self) -> (lines: Vec<String>)
        ensures
            lines@.len() == 1 + self.spec_keys().len(),
            lines@[0]@ == "The following countries are available:"@,
            forall|i: int|
                0 <= i < self.spec_keys().len() ==> lines@[i + 1]@ == self.spec_keys()[i],
    {
        let mut lines: Vec<String> = Vec::new();
        lines.push("The following countries are available:".to_owned());
        let mut i: usize = 0;
        while i < self.entries.len()
            invariant
                i <= self.entries@.len(),
                lines@.len() == 1 + i,
                lines@[0]@ == "The following countries are available:"@,
                forall|j: int| 0 <= j < i ==> lines@[j + 1]@ == self.entries@[j].name@,
            decreases self.entries@.len() - i,
        {
            lines.push(self.entries[i].name.clone());
            i = i + 1;
        }
        lines
    }
}

/// If entry `i` is the first whose name is `name`, the lookup finds it.
proof fn lemma_lookup_at_first_match(entries: Seq<CountryEntry>, name: Seq<char>, i: int)
    requires
        0 <= i < entries.len(),
        entries[i].name@ == name,
        forall|j: int| 0 <= j < i ==> entries[j].name@ != name,
    ensures
        lookup_in(entries, name) == Some(entries[i].records@),
    decreases i,
{
    if i > 0 {
        assert(entries[0].name@ != name);
        assert(entries.skip(1)[i - 1] == entries[i]);
        assert(forall|j: int| 0 <= j < i - 1 ==> entries.skip(1)[j] == entries[j + 1]);
        lemma_lookup_at_first_match(entries.skip(1), name, i - 1);
    }
}

/// If no entry's name is `name`, the lookup misses.
proof fn lemma_lookup_no_match(entries: Seq<CountryEntry>, name: Seq<char>)
    requires
        forall|j: int| 0 <= j < entries.len() ==> entries[j].name@ != name,
    ensures
        lookup_in(entries, name) is None,
    decreases entries.len(),
{
    if entries.len() > 0 {
        assert(forall|j: int|
            0 <= j < entries.len() - 1 ==> entries.skip(1)[j] == entries[j + 1]);
        lemma_lookup_no_match(entries.skip(1), name);
    }
}

/// What the contract of `select` admits as its outcome (the records found,
/// as a sequence, or a miss) for a given dataset and name.
pub open spec fn select_outcome_matches(
    d: CountryDataset,
    name: Seq<char>,
    outcome: Option<Seq<DailyRecord>>,
) -> bool {
    match outcome {
        Some(records) => d.spec_lookup(name) == Some(records),
        None => d.spec_lookup(name) is None,
    }
}

/// Lookup determinism law: the contract of `select` pins its outcome as a
/// function of the dataset and the name alone, so any two outcomes that
/// both satisfy it against the same dataset agree.
pub proof fn lemma_select_deterministic(
    d: CountryDataset,
    name: Seq<char>,
    o1: Option<Seq<DailyRecord>>,
    o2: Option<Seq<DailyRecord>>,
)
    requires
        select_outcome_matches(d, name, o1),
        select_outcome_matches(d, name, o2),
    ensures
        o1 == o2,
{
}

/// Not-found listing law (distinctness): in a well-formed dataset the
/// listed names are pairwise distinct; that the listing holds every name
/// exactly once, in insertion order, is the `ensures` of
/// `available_countries`.
pub proof fn lemma_keys_distinct(d: &CountryDataset)
    requires
        d.wf(),
    ensures
        forall|i: int, j: int|
            0 <= i < j < d.spec_keys().len() ==> d.spec_keys()[i] != d.spec_keys()[j],
{
}

} // verus!
