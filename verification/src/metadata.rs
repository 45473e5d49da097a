//! Metadata that travels with an upload: a finite map from names to values.

use vstd::prelude::*;

verus! {

/// The map that a run of pairs spells out, a later pair replacing an earlier
/// one of the same name.
pub open spec fn pairs_map(pairs: Seq<(String, String)>) -> Map<Seq<char>, Seq<char>>
    decreases pairs.len(),
{
    if pairs.len() == 0 {
        Map::empty()
    } else {
        pairs_map(pairs.drop_last()).insert(pairs.last().0@, pairs.last().1@)
    }
}

/// Whether no name occurs twice in a run of pairs.
pub open spec fn distinct_names(pairs: Seq<(String, String)>) -> bool {
    forall|i: int, j: int| 0 <= i < j < pairs.len() ==> pairs[i].0@ != pairs[j].0@
}

/// A name is in the map of a run of pairs exactly when some pair has it.
pub proof fn lemma_names(pairs: Seq<(String, String)>, name: Seq<char>)
    ensures
        pairs_map(pairs).contains_key(name) <==> exists|i: int|
            0 <= i < pairs.len() && pairs[i].0@ == name,
    decreases pairs.len(),
{
    if pairs.len() > 0 {
        let front = pairs.drop_last();
        lemma_names(front, name);
        if pairs_map(pairs).contains_key(name) {
            if pairs.last().0@ == name {
                assert(pairs[pairs.len() - 1].0@ == name);
            } else {
                let i = choose|i: int| 0 <= i < front.len() && front[i].0@ == name;
                assert(pairs[i].0@ == name);
            }
        }
        if exists|i: int| 0 <= i < pairs.len() && pairs[i].0@ == name {
            let i = choose|i: int| 0 <= i < pairs.len() && pairs[i].0@ == name;
            if i < pairs.len() - 1 {
                assert(front[i].0@ == name);
            }
        }
    }
}

/// Where no name occurs twice, the map holds each pair's value under its
/// name.
pub proof fn lemma_value(pairs: Seq<(String, String)>, i: int)
    requires
        distinct_names(pairs),
        0 <= i < pairs.len(),
    ensures
        pairs_map(pairs).contains_key(pairs[i].0@),
        pairs_map(pairs)[pairs[i].0@] == pairs[i].1@,
    decreases pairs.len(),
{
    if i < pairs.len() - 1 {
        let front = pairs.drop_last();
        assert(front[i] == pairs[i]);
        lemma_value(front, i);
    }
}

/// Where no name occurs twice, replacing the value of one pair replaces the
/// value under its name in the map.
pub proof fn lemma_replace(pairs: Seq<(String, String)>, i: int, pair: (String, String))
    requires
        distinct_names(pairs),
        0 <= i < pairs.len(),
        pair.0@ == pairs[i].0@,
    ensures
        distinct_names(pairs.update(i, pair)),
        pairs_map(pairs.update(i, pair)) == pairs_map(pairs).insert(pair.0@, pair.1@),
    decreases pairs.len(),
{
    let updated = pairs.update(i, pair);
    let front = pairs.drop_last();
    if i == pairs.len() - 1 {
        assert(updated.drop_last() =~= front);
        assert(pairs_map(updated) =~= pairs_map(pairs).insert(pair.0@, pair.1@));
    } else {
        lemma_replace(front, i, pair);
        assert(updated.drop_last() =~= front.update(i, pair));
        assert(updated.last() == pairs.last());
        assert(pairs.last().0@ != pair.0@);
        assert(pairs_map(updated) =~= pairs_map(pairs).insert(pair.0@, pair.1@));
    }
}

/// A finite map from names to values, in which a name occurs once.
#[derive(Debug, PartialEq, Eq)]
pub struct Metadata {
    entries: Vec<(String, String)>,
}

impl View for Metadata {
    type V = Map<Seq<char>, Seq<char>>;

    closed spec fn view(&self) -> Map<Seq<char>, Seq<char>> {
        pairs_map(self.entries@)
    }
}

impl Clone for Metadata {
    fn clone(&self) -> (r: Self)
        ensures
            r@ == self@,
    {
        proof {
            use_type_invariant(self);
        }
        let mut entries: Vec<(String, String)> = Vec::new();
        let mut i: usize = 0;
        while i < self.entries.len()
            invariant
                0 <= i <= self.entries@.len(),
                entries@ == self.entries@.subrange(0, i as int),
            decreases self.entries@.len() - i,
        {
            entries.push((self.entries[i].0.clone(), self.entries[i].1.clone()));
            assert(entries@ =~= self.entries@.subrange(0, i + 1));
            i += 1;
        }
        assert(entries@ =~= self.entries@);
        Metadata { entries }
    }
}

impl Metadata {
    #[verifier::type_invariant]
    spec fn names_occur_once(self) -> bool {
        distinct_names(self.entries@)
    }

    /// The empty map.
    pub fn new() -> (r: Metadata)
        ensures
            r@ == Map::<Seq<char>, Seq<char>>::empty(),
    {
        Metadata { entries: Vec::new() }
    }

    /// Where `name` stands among the entries, if it does.
    fn position(&self, name: &String) -> (r: Option<usize>)
        ensures
            match r {
                Some(i) => i < self.entries@.len() && self.entries@[i as int].0@ == name@,
                None => forall|i: int| 0 <= i < self.entries@.len() ==> self.entries@[i].0@ != name@,
            },
    {
        let mut i: usize = 0;
        while i < self.entries.len()
            invariant
                0 <= i <= self.entries@.len(),
                forall|j: int| 0 <= j < i ==> self.entries@[j].0@ != name@,
            decreases self.entries@.len() - i,
        {
            if self.entries[i].0 == *name {
                return Some(i);
            }
            i += 1;
        }
        None
    }

    /// The value under `name`, if there is one.
    pub fn get(&self, name: &String) -> (r: Option<&String>)
        ensures
            r.is_some() == self@.contains_key(name@),
            r matches Some(value) ==> value@ == self@[name@],
    {
        proof {
            use_type_invariant(self);
            lemma_names(self.entries@, name@);
        }
        match self.position(name) {
            Some(i) => {
                proof {
                    lemma_value(self.entries@, i as int);
                }
                Some(&self.entries[i].1)
            },
            None => None,
        }
    }

    /// Puts `value` under `name`, in place of what was there.
    pub fn insert(&mut self, name: String, value: String)
        ensures
            final(self)@ == old(self)@.insert(name@, value@),
    {
        proof {
            use_type_invariant(&*self);
        }
        let found = self.position(&name);
        let ghost before = self.entries@;
        let mut entries: Vec<(String, String)> = Vec::new();
        core::mem::swap(&mut self.entries, &mut entries);
        match found {
            Some(i) => {
                proof {
                    lemma_replace(before, i as int, (name, value));
                }
                entries.set(i, (name, value));
            },
            None => {
                entries.push((name, value));
                assert(entries@.drop_last() =~= before);
            },
        }
        core::mem::swap(&mut self.entries, &mut entries);
    }

    /// The number of names.
    pub fn len(&self) -> (r: usize)
        ensures
            r == self@.dom().len(),
            self@.dom().finite(),
    {
        proof {
            use_type_invariant(self);
            lemma_size(self.entries@);
        }
        self.entries.len()
    }

    /// The entries, one pair for each name.
    pub fn entries(&self) -> (r: &Vec<(String, String)>)
        ensures
            distinct_names(r@),
            pairs_map(r@) == self@,
    {
        proof {
            use_type_invariant(self);
        }
        &self.entries
    }

    /// The map that `pairs` spell out, a later pair replacing an earlier one
    /// of the same name.
    pub fn from_pairs(pairs: Vec<(String, String)>) -> (r: Metadata)
        ensures
            r@ == pairs_map(pairs@),
    {
        let mut metadata = Metadata::new();
        let mut i: usize = 0;
        while i < pairs.len()
            invariant
                0 <= i <= pairs@.len(),
                metadata@ == pairs_map(pairs@.subrange(0, i as int)),
            decreases pairs@.len() - i,
        {
            let name = pairs[i].0.clone();
            let value = pairs[i].1.clone();
            metadata.insert(name, value);
            proof {
                let next = pairs@.subrange(0, i + 1);
                assert(next.drop_last() =~= pairs@.subrange(0, i as int));
                assert(next.last() == pairs@[i as int]);
            }
            i += 1;
        }
        assert(pairs@.subrange(0, i as int) =~= pairs@);
        metadata
    }
}

/// Where no name occurs twice, the map has as many names as there are
/// pairs.
pub proof fn lemma_size(pairs: Seq<(String, String)>)
    requires
        distinct_names(pairs),
    ensures
        pairs_map(pairs).dom().finite(),
        pairs_map(pairs).dom().len() == pairs.len(),
    decreases pairs.len(),
{
    if pairs.len() > 0 {
        let front = pairs.drop_last();
        lemma_size(front);
        lemma_names(front, pairs.last().0@);
        if pairs_map(front).contains_key(pairs.last().0@) {
            let i = choose|i: int| 0 <= i < front.len() && front[i].0@ == pairs.last().0@;
            assert(pairs[i].0@ == pairs[pairs.len() - 1].0@);
        }
        assert(pairs_map(pairs).dom() =~= pairs_map(front).dom().insert(pairs.last().0@));
    }
}

} // verus!
