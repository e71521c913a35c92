//! Answers to security questions, keyed by the question's text.
use vstd::prelude::*;

use crate::foreign::{opt_view, pairs_view};

verus! {

/// The value of the first pair whose key is `key`.
pub open spec fn first_value(pairs: Seq<(Seq<char>, Seq<char>)>, key: Seq<char>) -> Option<
    Seq<char>,
>
    decreases pairs.len(),
{
    if pairs.len() == 0 {
        None
    } else if pairs[0].0 == key {
        Some(pairs[0].1)
    } else {
        first_value(pairs.drop_first(), key)
    }
}

/// The value of the first pair whose key is `key`.
pub fn lookup(pairs: &Vec<(String, String)>, key: &str) -> (r: Option<String>)
    ensures
        opt_view(r) == first_value(pairs_view(pairs@), key@),
{
    let ghost all = pairs_view(pairs@);
    let wanted = String::from_str(key);
    let mut i: usize = 0;
    assert(all.subrange(0, all.len() as int) =~= all);
    while i < pairs.len()
        invariant
            i <= pairs@.len(),
            all == pairs_view(pairs@),
            wanted@ == key@,
            first_value(all, key@) == first_value(all.subrange(i as int, all.len() as int), key@),
        decreases pairs.len() - i,
    {
        let ghost rest = all.subrange(i as int, all.len() as int);
        assert(rest.drop_first() =~= all.subrange(i + 1, all.len() as int));
        if pairs[i].0.eq(&wanted) {
            return Some(pairs[i].1.clone());
        }
        i = i + 1;
    }
    assert(all.subrange(i as int, all.len() as int).len() == 0);
    None
}

/// No key occurs twice.
pub open spec fn distinct_keys(s: Seq<(Seq<char>, Seq<char>)>) -> bool {
    forall|i: int, j: int| 0 <= i < j < s.len() ==> s[i].0 != s[j].0
}

/// With distinct keys, the value of the pair that holds `key`, if any.
proof fn lemma_first_value_at(s: Seq<(Seq<char>, Seq<char>)>, key: Seq<char>)
    requires
        distinct_keys(s),
    ensures
        forall|i: int| 0 <= i < s.len() && s[i].0 == key ==> first_value(s, key) == Some(s[i].1),
        (forall|i: int| 0 <= i < s.len() ==> s[i].0 != key) ==> first_value(s, key) is None,
    decreases s.len(),
{
    if s.len() > 0 {
        let t = s.drop_first();
        assert(distinct_keys(t)) by {
            assert forall|i: int, j: int| 0 <= i < j < t.len() implies t[i].0 != t[j].0 by {
                assert(t[i] == s[i + 1] && t[j] == s[j + 1]);
            }
        }
        lemma_first_value_at(t, key);
        assert forall|i: int| 0 <= i < s.len() && s[i].0 == key implies first_value(s, key) == Some(
            s[i].1,
        ) by {
            if i > 0 {
                assert(t[i - 1] == s[i]);
            }
        }
        if forall|i: int| 0 <= i < s.len() ==> s[i].0 != key {
            assert forall|i: int| 0 <= i < t.len() implies t[i].0 != key by {
                assert(t[i] == s[i + 1]);
            }
        }
    }
}

/// The map that a list of pairs stands for: each key to its first value.
pub open spec fn pairs_map(s: Seq<(Seq<char>, Seq<char>)>) -> Map<Seq<char>, Seq<char>> {
    Map::new(|k: Seq<char>| first_value(s, k) is Some, |k: Seq<char>| first_value(s, k)->Some_0)
}

/// Security questions and their answers, each question once.
pub struct AnswerMap {
    pairs: Vec<(String, String)>,
}

impl AnswerMap {
    #[verifier::type_invariant]
    spec fn questions_distinct(self) -> bool {
        distinct_keys(pairs_view(self.pairs@))
    }
}

impl View for AnswerMap {
    type V = Map<Seq<char>, Seq<char>>;

    closed spec fn view(&self) -> Map<Seq<char>, Seq<char>> {
        pairs_map(pairs_view(self.pairs@))
    }
}

/// The index of the pair whose key is `key`.
fn position(pairs: &Vec<(String, String)>, key: &String) -> (r: Option<usize>)
    ensures
        match r {
            Some(i) => i < pairs@.len() && pairs@[i as int].0@ == key@,
            None => forall|i: int| 0 <= i < pairs@.len() ==> pairs@[i].0@ != key@,
        },
{
    let mut i: usize = 0;
    while i < pairs.len()
        invariant
            i <= pairs@.len(),
            forall|j: int| 0 <= j < i ==> pairs@[j].0@ != key@,
        decreases pairs.len() - i,
    {
        if pairs[i].0.eq(key) {
            return Some(i);
        }
        i = i + 1;
    }
    None
}

/// A copy of a list of pairs.
fn copy_pairs(pairs: &Vec<(String, String)>) -> (r: Vec<(String, String)>)
    ensures
        pairs_view(r@) == pairs_view(pairs@),
{
    let mut out: Vec<(String, String)> = Vec::new();
    let mut j: usize = 0;
    while j < pairs.len()
        invariant
            j <= pairs@.len(),
            out@.len() == j,
            pairs_view(out@) =~= pairs_view(pairs@).take(j as int),
        decreases pairs.len() - j,
    {
        let k = pairs[j].0.clone();
        let v = pairs[j].1.clone();
        assert(k@ == pairs@[j as int].0@ && v@ == pairs@[j as int].1@);
        out.push((k, v));
        assert(pairs_view(out@)[j as int] == pairs_view(pairs@)[j as int]);
        assert(pairs_view(out@) =~= pairs_view(pairs@).take(j + 1));
        j = j + 1;
    }
    assert(pairs_view(pairs@).take(j as int) =~= pairs_view(pairs@));
    out
}

impl AnswerMap {
    /// No answers.
    pub fn new() -> (r: AnswerMap)
        ensures
            r@ == Map::<Seq<char>, Seq<char>>::empty(),
    {
        let r = AnswerMap { pairs: Vec::new() };
        assert(r@ =~= Map::<Seq<char>, Seq<char>>::empty());
        r
    }

    /// The answer to `question`.
    pub fn get(&self, question: &str) -> (r: Option<String>)
        ensures
            opt_view(r) == (if self@.contains_key(question@) {
                Some(self@[question@])
            } else {
                None
            }),
    {
        lookup(&self.pairs, question)
    }

    /// The questions with their answers, each question once.
    pub fn entries(&self) -> (r: Vec<(String, String)>)
        ensures
            distinct_keys(pairs_view(r@)),
            pairs_map(pairs_view(r@)) == self@,
    {
        proof {
            use_type_invariant(self);
        }
        copy_pairs(&self.pairs)
    }

    /// Sets the answer to `question`, in place of any earlier one.
    pub fn insert(&mut self, question: String, answer: String)
        ensures
            final(self)@ == old(self)@.insert(question@, answer@),
    {
        proof {
            use_type_invariant(&*self);
        }
        let ghost old_pairs = pairs_view(self.pairs@);
        let ghost entry = (question@, answer@);
        match position(&self.pairs, &question) {
            Some(i) => {
                let ghost new_pairs = old_pairs.update(i as int, entry);
                let mut pairs = copy_pairs(&self.pairs);
                pairs.set(i, (question, answer));
                assert(pairs_view(pairs@) =~= new_pairs);
                proof {
                    assert(distinct_keys(new_pairs)) by {
                        assert forall|a: int, b: int| 0 <= a < b < new_pairs.len() implies new_pairs[a].0
                            != new_pairs[b].0 by {
                            assert(new_pairs[a].0 == old_pairs[a].0);
                            assert(new_pairs[b].0 == old_pairs[b].0);
                        }
                    }
                    lemma_map_after_update(old_pairs, i as int, entry);
                }
                self.pairs = pairs;
            },
            None => {
                proof {
                    let new_pairs = old_pairs.push(entry);
                    assert(distinct_keys(new_pairs)) by {
                        assert forall|a: int, b: int| 0 <= a < b < new_pairs.len() implies new_pairs[a].0
                            != new_pairs[b].0 by {
                            if b == old_pairs.len() {
                                assert(old_pairs[a].0 == self.pairs@[a].0@);
                            }
                        }
                    }
                    lemma_map_after_push(old_pairs, entry);
                }
                let mut pairs = copy_pairs(&self.pairs);
                pairs.push((question, answer));
                assert(pairs_view(pairs@) =~= old_pairs.push(entry));
                self.pairs = pairs;
            },
        }
    }
}

proof fn lemma_map_after_update(
    s: Seq<(Seq<char>, Seq<char>)>,
    i: int,
    entry: (Seq<char>, Seq<char>),
)
    requires
        distinct_keys(s),
        distinct_keys(s.update(i, entry)),
        0 <= i < s.len(),
        s[i].0 == entry.0,
    ensures
        pairs_map(s.update(i, entry)) == pairs_map(s).insert(entry.0, entry.1),
{
    let n = s.update(i, entry);
    assert forall|k: Seq<char>| true implies first_value(n, k) == (if k == entry.0 {
        Some(entry.1)
    } else {
        first_value(s, k)
    }) by {
        lemma_first_value_at(s, k);
        lemma_first_value_at(n, k);
        if k == entry.0 {
            assert(n[i].0 == k);
        } else if exists|x: int| 0 <= x < s.len() && s[x].0 == k {
            let x = choose|x: int| 0 <= x < s.len() && s[x].0 == k;
            assert(n[x] == s[x]);
        } else {
            assert forall|x: int| 0 <= x < n.len() implies n[x].0 != k by {
                if x != i {
                    assert(n[x] == s[x]);
                }
            }
        }
    }
    assert(pairs_map(n) =~= pairs_map(s).insert(entry.0, entry.1));
}

proof fn lemma_map_after_push(s: Seq<(Seq<char>, Seq<char>)>, entry: (Seq<char>, Seq<char>))
    requires
        distinct_keys(s),
        distinct_keys(s.push(entry)),
    ensures
        pairs_map(s.push(entry)) == pairs_map(s).insert(entry.0, entry.1),
{
    let n = s.push(entry);
    assert forall|k: Seq<char>| true implies first_value(n, k) == (if k == entry.0 {
        Some(entry.1)
    } else {
        first_value(s, k)
    }) by {
        lemma_first_value_at(s, k);
        lemma_first_value_at(n, k);
        if k == entry.0 {
            assert(n[s.len() as int].0 == k);
        } else if exists|x: int| 0 <= x < s.len() && s[x].0 == k {
            let x = choose|x: int| 0 <= x < s.len() && s[x].0 == k;
            assert(n[x] == s[x]);
        } else {
            assert forall|x: int| 0 <= x < n.len() implies n[x].0 != k by {
                if x < s.len() {
                    assert(n[x] == s[x]);
                }
            }
        }
    }
    assert(pairs_map(n) =~= pairs_map(s).insert(entry.0, entry.1));
}

} // verus!
