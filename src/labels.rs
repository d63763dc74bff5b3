//! Destination labels: an ordered set of string-keyed label values.
use vstd::prelude::*;

verus! {

/// The value that a label set gives to `key`: the last pair with that key
/// wins, as when the pairs are inserted one after another into a map.
pub open spec fn label_value(pairs: Seq<(Seq<char>, Seq<char>)>, key: Seq<char>) -> Option<Seq<char>>
    decreases pairs.len(),
{
    if pairs.len() == 0 {
        None
    } else if pairs.last().0 == key {
        Some(pairs.last().1)
    } else {
        label_value(pairs.drop_last(), key)
    }
}

/// No key occurs twice among the pairs.
pub open spec fn keys_unique(pairs: Seq<(Seq<char>, Seq<char>)>) -> bool {
    forall|i: int, j: int| 0 <= i < j < pairs.len() ==> pairs[i].0 != pairs[j].0
}

/// With unique keys, the value of a key is the one of the pair that holds it.
proof fn lemma_value_at(pairs: Seq<(Seq<char>, Seq<char>)>, i: int, key: Seq<char>)
    requires
        keys_unique(pairs),
        0 <= i < pairs.len(),
        pairs[i].0 == key,
    ensures
        label_value(pairs, key) == Some(pairs[i].1),
    decreases pairs.len(),
{
    if i != pairs.len() - 1 {
        assert(pairs.last().0 != key);
        let rest = pairs.drop_last();
        assert(keys_unique(rest));
        assert(rest[i] == pairs[i]);
        lemma_value_at(rest, i, key);
    }
}

/// A key that no pair holds has no value.
proof fn lemma_value_absent(pairs: Seq<(Seq<char>, Seq<char>)>, key: Seq<char>)
    requires
        forall|i: int| 0 <= i < pairs.len() ==> pairs[i].0 != key,
    ensures
        label_value(pairs, key) is None,
    decreases pairs.len(),
{
    if pairs.len() > 0 {
        let rest = pairs.drop_last();
        assert forall|i: int| 0 <= i < rest.len() implies rest[i].0 != key by {
            assert(rest[i] == pairs[i]);
        }
        lemma_value_absent(rest, key);
    }
}

/// Replacing the value of one key leaves the values of the other keys alone.
proof fn lemma_update_other(
    pairs: Seq<(Seq<char>, Seq<char>)>,
    j: int,
    p: (Seq<char>, Seq<char>),
    key: Seq<char>,
)
    requires
        keys_unique(pairs),
        0 <= j < pairs.len(),
        pairs[j].0 == p.0,
        p.0 != key,
    ensures
        label_value(pairs.update(j, p), key) == label_value(pairs, key),
{
    let next = pairs.update(j, p);
    assert(keys_unique(next));
    if exists|t: int| 0 <= t < pairs.len() && pairs[t].0 == key {
        let t = choose|t: int| 0 <= t < pairs.len() && pairs[t].0 == key;
        lemma_value_at(pairs, t, key);
        lemma_value_at(next, t, key);
    } else {
        lemma_value_absent(pairs, key);
        assert forall|i: int| 0 <= i < next.len() implies next[i].0 != key by {
            if i != j {
                assert(next[i] == pairs[i]);
            }
        }
        lemma_value_absent(next, key);
    }
}

/// The model of a sequence of string pairs.
pub open spec fn pairs_view(pairs: Seq<(String, String)>) -> Seq<(Seq<char>, Seq<char>)> {
    pairs.map_values(|p: (String, String)| (p.0@, p.1@))
}

/// Returns where `key` stands among the pairs, if it does.
fn position(pairs: &Vec<(String, String)>, key: &String) -> (r: Option<usize>)
    ensures
        match r {
            Some(j) => j < pairs@.len() && pairs@[j as int].0@ == key@,
            None => forall|t: int| 0 <= t < pairs@.len() ==> pairs@[t].0@ != key@,
        },
{
    let mut j: usize = 0;
    while j < pairs.len()
        invariant
            j <= pairs@.len(),
            forall|t: int| 0 <= t < j ==> pairs@[t].0@ != key@,
        decreases pairs@.len() - j,
    {
        if pairs[j].0 == *key {
            return Some(j);
        }
        j = j + 1;
    }
    None
}

/// A set of metric labels describing a destination.
#[derive(Clone, Debug, PartialEq, Eq, Hash)]
pub struct DstLabels {
    pairs: Vec<(String, String)>,
}

impl View for DstLabels {
    type V = Seq<(Seq<char>, Seq<char>)>;

    closed spec fn view(&self) -> Seq<(Seq<char>, Seq<char>)> {
        pairs_view(self.pairs@)
    }
}

impl DstLabels {
    /// Well-formedness: each key holds one value.
    pub open spec fn wf(&self) -> bool {
        keys_unique(self@)
    }

    /// Builds a label set by inserting the `(key, value)` pairs in order: a
    /// key seen again keeps its place and takes the later value.
    pub fn new(pairs: Vec<(String, String)>) -> (r: DstLabels)
        ensures
            r.wf(),
            forall|key: Seq<char>| #[trigger] label_value(r@, key) == label_value(pairs_view(pairs@), key),
    {
        let ghost input = pairs_view(pairs@);
        let mut out: Vec<(String, String)> = Vec::new();
        let mut i: usize = 0;
        assert(pairs_view(out@) =~= Seq::<(Seq<char>, Seq<char>)>::empty());
        while i < pairs.len()
            invariant
                i <= pairs@.len(),
                input == pairs_view(pairs@),
                keys_unique(pairs_view(out@)),
                forall|key: Seq<char>| #[trigger] label_value(pairs_view(out@), key)
                    == label_value(input.subrange(0, i as int), key),
            decreases pairs@.len() - i,
        {
            let key = pairs[i].0.clone();
            let value = pairs[i].1.clone();
            let ghost before = pairs_view(out@);
            let ghost p = (key@, value@);
            assert(input[i as int] == p);
            proof {
                let prefix = input.subrange(0, i + 1);
                assert(prefix.drop_last() =~= input.subrange(0, i as int));
                assert(prefix.last() == p);
            }
            match position(&out, &key) {
                Some(j) => {
                    out.set(j, (key, value));
                    proof {
                        assert(pairs_view(out@) =~= before.update(j as int, p));
                        assert(before[j as int].0 == p.0);
                        let after = pairs_view(out@);
                        assert forall|a: int, b: int| 0 <= a < b < after.len() implies after[a].0 != after[b].0 by {
                            assert(after[a].0 == before[a].0);
                            assert(after[b].0 == before[b].0);
                        }
                        lemma_value_at(pairs_view(out@), j as int, p.0);
                        assert forall|k: Seq<char>| #[trigger] label_value(pairs_view(out@), k)
                            == label_value(input.subrange(0, i + 1), k) by {
                            let prefix = input.subrange(0, i + 1);
                            assert(prefix.drop_last() =~= input.subrange(0, i as int));
                            assert(prefix.last() == p);
                            if k != p.0 {
                                lemma_update_other(before, j as int, p, k);
                                assert(label_value(before, k) == label_value(input.subrange(0, i as int), k));
                            }
                        }
                    }
                },
                None => {
                    out.push((key, value));
                    proof {
                        let after = pairs_view(out@);
                        assert(after =~= before.push(p));
                        assert(after.drop_last() =~= before);
                        assert forall|a: int, b: int| 0 <= a < b < after.len() implies after[a].0 != after[b].0 by {
                            if b == after.len() - 1 {
                                assert(after[a] == before[a]);
                            } else {
                                assert(after[a] == before[a]);
                                assert(after[b] == before[b]);
                            }
                        }
                        assert forall|k: Seq<char>| #[trigger] label_value(pairs_view(out@), k)
                            == label_value(input.subrange(0, i + 1), k) by {
                            let prefix = input.subrange(0, i + 1);
                            assert(prefix.drop_last() =~= input.subrange(0, i as int));
                            assert(prefix.last() == p);
                            assert(after.last() == p);
                            assert(label_value(before, k) == label_value(input.subrange(0, i as int), k));
                        }
                    }
                },
            }
            i = i + 1;
        }
        assert(input.subrange(0, i as int) =~= input);
        DstLabels { pairs: out }
    }

    /// Returns the value of the label `key`, if there is one.
    pub fn get(&self, key: &String) -> (r: Option<&String>)
        ensures
            match r {
                Some(v) => label_value(self@, key@) == Some(v@),
                None => label_value(self@, key@) is None,
            },
    {
        let mut i: usize = self.pairs.len();
        assert(self@.subrange(0, i as int) =~= self@);
        while i > 0
            invariant
                i <= self.pairs@.len(),
                self@.len() == self.pairs@.len(),
                label_value(self@, key@) == label_value(self@.subrange(0, i as int), key@),
            decreases i,
        {
            let p = &self.pairs[i - 1];
            proof {
                let s = self@.subrange(0, i as int);
                assert(s.drop_last() =~= self@.subrange(0, i - 1));
                assert(s.last() == self@[i - 1]);
                assert(self@[i - 1] == (p.0@, p.1@));
            }
            if p.0 == *key {
                return Some(&p.1);
            }
            i = i - 1;
        }
        None
    }

    /// Returns the labels as `(key, value)` pairs, in order.
    pub fn pairs(&self) -> (r: &Vec<(String, String)>)
        ensures
            pairs_view(r@) == self@,
    {
        &self.pairs
    }
}

} // verus!
