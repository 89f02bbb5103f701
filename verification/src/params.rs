//! Named text parameters: the query of a URL, the fields of a form.
//!
//! Two models are used. A list of pairs, `Seq<(Seq<char>, Seq<char>)>`, is what
//! goes over the wire: ordered, and a name may repeat. A map,
//! `Map<Seq<char>, Seq<char>>`, is what a reader sees: each name once, with
//! the value that came last.

use vstd::prelude::*;
use vstd::string::StringExecFns;
use vstd::string::StringSliceAdditionalSpecFns;
use vstd::utf8::encode_utf8;
use crate::describe::Describe;
use crate::encoding::{debug_quoted, debug_quoted_text};
use crate::text::{join, join_text, str_eq, texts};

verus! {

/// A list of name and value pairs, as text.
pub type PairSeq = Seq<(Seq<char>, Seq<char>)>;

/// The views of the pairs of `pairs`, in order.
pub open spec fn pair_texts(pairs: Seq<(String, String)>) -> PairSeq {
    Seq::new(pairs.len(), |i: int| (pairs[i].0@, pairs[i].1@))
}

/// The map that a list of named values stands for: where a name repeats,
/// the last value wins.
pub open spec fn pairs_to_map<V>(pairs: Seq<(Seq<char>, V)>) -> Map<Seq<char>, V>
    decreases pairs.len(),
{
    if pairs.len() == 0 {
        Map::empty()
    } else {
        pairs_to_map(pairs.drop_last()).insert(pairs.last().0, pairs.last().1)
    }
}

/// No name occurs twice in `pairs`.
pub open spec fn distinct_names<V>(pairs: Seq<(Seq<char>, V)>) -> bool {
    forall|i: int, j: int| 0 <= i < j < pairs.len() ==> (#[trigger] pairs[i]).0 != (#[trigger] pairs[j]).0
}

/// How often the name `name` occurs in `pairs`.
pub open spec fn count_name<V>(pairs: Seq<(Seq<char>, V)>, name: Seq<char>) -> nat
    decreases pairs.len(),
{
    if pairs.len() == 0 {
        0
    } else {
        count_name(pairs.drop_last(), name) + if pairs.last().0 == name {
            1nat
        } else {
            0nat
        }
    }
}

/// How much room the pairs `pairs` take: the bytes of each name and each
/// value, and two bytes more for each pair, for what stands between them
/// when they are written one after the other.
pub open spec fn pairs_weight(pairs: PairSeq) -> nat
    decreases pairs.len(),
{
    if pairs.len() == 0 {
        0
    } else {
        pairs_weight(pairs.drop_last()) + encode_utf8(pairs.last().0).len() + encode_utf8(
            pairs.last().1,
        ).len() + 2
    }
}

/// The first pairs of a list weigh no more than the list.
pub proof fn lemma_weight_of_first(pairs: PairSeq, n: int)
    requires
        0 <= n <= pairs.len(),
    ensures
        pairs_weight(pairs.take(n)) <= pairs_weight(pairs),
    decreases pairs.len(),
{
    if n < pairs.len() {
        assert(pairs.drop_last().take(n) =~= pairs.take(n));
        lemma_weight_of_first(pairs.drop_last(), n);
    } else {
        assert(pairs.take(n) =~= pairs);
    }
}

/// Whether the pairs `pairs` weigh no more than `limit`.
pub fn weight_within(pairs: &Vec<(String, String)>, limit: usize) -> (r: bool)
    requires
        limit <= 0x3FFF_FFFF,
    ensures
        r == (pairs_weight(pair_texts(pairs@)) <= limit),
{
    let mut sum: usize = 0;
    let mut i: usize = 0;
    proof {
        assert(pair_texts(pairs@).take(0) =~= Seq::<(Seq<char>, Seq<char>)>::empty());
    }
    while i < pairs.len()
        invariant
            i <= pairs.len(),
            limit <= 0x3FFF_FFFF,
            sum <= limit,
            sum == pairs_weight(pair_texts(pairs@).take(i as int)),
        decreases pairs.len() - i,
    {
        let name = pairs[i].0.as_str().as_bytes().len();
        let value = pairs[i].1.as_str().as_bytes().len();
        proof {
            let all = pair_texts(pairs@);
            assert(all.take(i + 1).drop_last() =~= all.take(i as int));
            assert(all.take(i + 1).last() == all[i as int]);
            lemma_weight_of_first(all, i + 1);
        }
        if name > limit || value > limit {
            return false;
        }
        sum = sum + name + value + 2;
        if sum > limit {
            return false;
        }
        i = i + 1;
    }
    assert(pair_texts(pairs@).take(i as int) =~= pair_texts(pairs@));
    true
}

/// Where the name `name` first occurs in `pairs`; the length of `pairs`
/// where it does not occur.
pub open spec fn position_of<V>(pairs: Seq<(Seq<char>, V)>, name: Seq<char>) -> int
    decreases pairs.len(),
{
    if pairs.len() == 0 || pairs[0].0 == name {
        0
    } else {
        1 + position_of(pairs.drop_first(), name)
    }
}

/// The list `pairs` with the name `name` set to `value`: in the place where
/// the name first occurs, else at the end.
pub open spec fn with_pair<V>(pairs: Seq<(Seq<char>, V)>, name: Seq<char>, value: V) -> Seq<
    (Seq<char>, V),
> {
    if 0 <= position_of(pairs, name) < pairs.len() {
        pairs.update(position_of(pairs, name), (name, value))
    } else {
        pairs.push((name, value))
    }
}

/// The list that `pairs` comes to when its pairs are set one after the
/// other: each name once, in the order in which the names first occur, with
/// the value that came last.
pub open spec fn merged<V>(pairs: Seq<(Seq<char>, V)>) -> Seq<(Seq<char>, V)>
    decreases pairs.len(),
{
    if pairs.len() == 0 {
        pairs
    } else {
        with_pair(merged(pairs.drop_last()), pairs.last().0, pairs.last().1)
    }
}

/// The place where a name first occurs is the place before which it does
/// not occur and at which it does, or the end.
pub proof fn lemma_position_of<V>(pairs: Seq<(Seq<char>, V)>, name: Seq<char>, i: int)
    requires
        0 <= i <= pairs.len(),
        forall|j: int| 0 <= j < i ==> (#[trigger] pairs[j]).0 != name,
        i == pairs.len() || pairs[i].0 == name,
    ensures
        position_of(pairs, name) == i,
    decreases i,
{
    if i > 0 {
        let rest = pairs.drop_first();
        assert(pairs[0].0 != name);
        assert forall|j: int| 0 <= j < i - 1 implies (#[trigger] rest[j]).0 != name by {
            assert(rest[j] == pairs[j + 1]);
        }
        lemma_position_of(rest, name, i - 1);
    }
}

/// A name that no pair carries is not in the map.
pub proof fn lemma_absent_name<V>(pairs: Seq<(Seq<char>, V)>, name: Seq<char>)
    requires
        forall|i: int| 0 <= i < pairs.len() ==> (#[trigger] pairs[i]).0 != name,
    ensures
        !pairs_to_map(pairs).contains_key(name),
    decreases pairs.len(),
{
    if pairs.len() > 0 {
        let rest = pairs.drop_last();
        assert forall|i: int| 0 <= i < rest.len() implies (#[trigger] rest[i]).0 != name by {
            assert(rest[i] == pairs[i]);
        }
        lemma_absent_name(rest, name);
        assert(pairs.last() == pairs[pairs.len() - 1]);
    }
}

/// Where no name repeats, each pair is found in the map.
pub proof fn lemma_present_name<V>(pairs: Seq<(Seq<char>, V)>, i: int)
    requires
        distinct_names(pairs),
        0 <= i < pairs.len(),
    ensures
        pairs_to_map(pairs).contains_key(pairs[i].0),
        pairs_to_map(pairs)[pairs[i].0] == pairs[i].1,
    decreases pairs.len(),
{
    let rest = pairs.drop_last();
    if i < pairs.len() - 1 {
        assert forall|a: int, b: int| 0 <= a < b < rest.len() implies (#[trigger] rest[a]).0 != (
        #[trigger] rest[b]).0 by {
            assert(rest[a] == pairs[a]);
            assert(rest[b] == pairs[b]);
        }
        lemma_present_name(rest, i);
        assert(rest[i] == pairs[i]);
        assert(pairs.last() == pairs[pairs.len() - 1]);
    }
}

/// Where no name repeats, the map has as many names as the list has pairs.
pub proof fn lemma_distinct_len<V>(pairs: Seq<(Seq<char>, V)>)
    requires
        distinct_names(pairs),
    ensures
        pairs_to_map(pairs).dom().finite(),
        pairs_to_map(pairs).dom().len() == pairs.len(),
    decreases pairs.len(),
{
    if pairs.len() > 0 {
        let rest = pairs.drop_last();
        assert forall|a: int, b: int| 0 <= a < b < rest.len() implies (#[trigger] rest[a]).0 != (
        #[trigger] rest[b]).0 by {
            assert(rest[a] == pairs[a]);
            assert(rest[b] == pairs[b]);
        }
        lemma_distinct_len(rest);
        assert forall|i: int| 0 <= i < rest.len() implies (#[trigger] rest[i]).0
            != pairs.last().0 by {
            assert(rest[i] == pairs[i]);
            assert(pairs.last() == pairs[pairs.len() - 1]);
        }
        lemma_absent_name(rest, pairs.last().0);
    }
}

/// Replacing the value of a pair in place does to the map what an insert
/// of that name does, where no name repeats.
pub proof fn lemma_update_in_place<V>(pairs: Seq<(Seq<char>, V)>, i: int, value: V)
    requires
        distinct_names(pairs),
        0 <= i < pairs.len(),
    ensures
        pairs_to_map(pairs.update(i, (pairs[i].0, value))) == pairs_to_map(pairs).insert(
            pairs[i].0,
            value,
        ),
        distinct_names(pairs.update(i, (pairs[i].0, value))),
    decreases pairs.len(),
{
    let name = pairs[i].0;
    let next = pairs.update(i, (name, value));
    let rest = pairs.drop_last();
    assert(pairs.last() == pairs[pairs.len() - 1]);
    if i == pairs.len() - 1 {
        assert(next.drop_last() =~= rest);
        assert(pairs_to_map(next) =~= pairs_to_map(pairs).insert(name, value));
    } else {
        assert forall|a: int, b: int| 0 <= a < b < rest.len() implies (#[trigger] rest[a]).0 != (
        #[trigger] rest[b]).0 by {
            assert(rest[a] == pairs[a]);
            assert(rest[b] == pairs[b]);
        }
        assert(rest[i] == pairs[i]);
        lemma_update_in_place(rest, i, value);
        assert(next.drop_last() =~= rest.update(i, (name, value)));
        assert(next.last() == pairs.last());
        assert(pairs[i].0 != pairs[pairs.len() - 1].0);
        assert(pairs_to_map(next) =~= pairs_to_map(pairs).insert(name, value));
    }
    assert forall|a: int, b: int| 0 <= a < b < next.len() implies (#[trigger] next[a]).0 != (
    #[trigger] next[b]).0 by {
        assert(next[a].0 == pairs[a].0);
        assert(next[b].0 == pairs[b].0);
    }
}

/// What [`position_of`] gives is a place in the list or its end; the name
/// stands at that place, and nowhere before it.
pub proof fn lemma_position_is_first<V>(pairs: Seq<(Seq<char>, V)>, name: Seq<char>)
    ensures
        0 <= position_of(pairs, name) <= pairs.len(),
        position_of(pairs, name) < pairs.len() ==> pairs[position_of(pairs, name)].0 == name,
        forall|j: int| 0 <= j < position_of(pairs, name) ==> (#[trigger] pairs[j]).0 != name,
    decreases pairs.len(),
{
    if pairs.len() > 0 && pairs[0].0 != name {
        let rest = pairs.drop_first();
        lemma_position_is_first(rest, name);
        let at = position_of(pairs, name);
        if at < pairs.len() {
            assert(pairs[at] == rest[at - 1]);
        }
        assert forall|j: int| 0 <= j < at implies (#[trigger] pairs[j]).0 != name by {
            if j > 0 {
                assert(pairs[j] == rest[j - 1]);
            }
        }
    }
}

/// Setting a name in a list that names each once gives a list that names
/// each once, and does to the map what an insert does.
pub proof fn lemma_with_pair<V>(pairs: Seq<(Seq<char>, V)>, name: Seq<char>, value: V)
    requires
        distinct_names(pairs),
    ensures
        distinct_names(with_pair(pairs, name, value)),
        pairs_to_map(with_pair(pairs, name, value)) == pairs_to_map(pairs).insert(name, value),
{
    lemma_position_is_first(pairs, name);
    let at = position_of(pairs, name);
    let next = with_pair(pairs, name, value);
    if at < pairs.len() {
        lemma_update_in_place(pairs, at, value);
    } else {
        assert(next.drop_last() =~= pairs);
        assert(next.last() == (name, value));
        assert forall|a: int, b: int| 0 <= a < b < next.len() implies (#[trigger] next[a]).0 != (
        #[trigger] next[b]).0 by {
            assert(next[a] == pairs[a]);
            if b < pairs.len() {
                assert(next[b] == pairs[b]);
            }
        }
    }
}

/// The merged list names each name once and stands for the same map as
/// the list it was made from.
pub proof fn lemma_merged<V>(pairs: Seq<(Seq<char>, V)>)
    ensures
        distinct_names(merged(pairs)),
        pairs_to_map(merged(pairs)) == pairs_to_map(pairs),
    decreases pairs.len(),
{
    if pairs.len() > 0 {
        lemma_merged(pairs.drop_last());
        lemma_with_pair(merged(pairs.drop_last()), pairs.last().0, pairs.last().1);
    }
}

/// A set of named parameters: each name once.
#[derive(Debug)]
pub struct Params {
    entries: Vec<(String, String)>,
}

impl View for Params {
    type V = Map<Seq<char>, Seq<char>>;

    closed spec fn view(&self) -> Map<Seq<char>, Seq<char>> {
        pairs_to_map(pair_texts(self.entries@))
    }
}

impl Clone for Params {
    fn clone(&self) -> (r: Self)
        ensures
            r@ == self@,
            r.pair_seq() == self.pair_seq(),
    {
        proof {
            use_type_invariant(self);
        }
        let mut entries: Vec<(String, String)> = Vec::new();
        let mut i: usize = 0;
        while i < self.entries.len()
            invariant
                i <= self.entries.len(),
                entries.len() == i,
                pair_texts(entries@) == pair_texts(self.entries@).take(i as int),
            decreases self.entries.len() - i,
        {
            let ghost before = pair_texts(entries@);
            let name = self.entries[i].0.clone();
            let value = self.entries[i].1.clone();
            entries.push((name, value));
            i = i + 1;
            proof {
                let after = pair_texts(entries@);
                let goal = pair_texts(self.entries@).take(i as int);
                assert(after.len() == goal.len());
                assert forall|j: int| 0 <= j < after.len() implies after[j] == goal[j] by {
                    if j < i - 1 {
                        assert(after[j] == before[j]);
                    }
                }
                assert(after =~= goal);
            }
        }
        assert(pair_texts(self.entries@).take(i as int) =~= pair_texts(self.entries@));
        Params { entries }
    }
}

impl Params {
    #[verifier::type_invariant]
    spec fn inv(self) -> bool {
        distinct_names(pair_texts(self.entries@))
    }

    /// The parameters as a list of pairs, in the order in which their names
    /// first came in.
    pub closed spec fn pair_seq(self) -> PairSeq {
        pair_texts(self.entries@)
    }

    /// No parameters.
    pub fn new() -> (r: Self)
        ensures
            r@ == Map::<Seq<char>, Seq<char>>::empty(),
            r.pair_seq() == Seq::<(Seq<char>, Seq<char>)>::empty(),
    {
        let r = Params { entries: Vec::new() };
        assert(pair_texts(r.entries@) =~= Seq::<(Seq<char>, Seq<char>)>::empty());
        r
    }

    /// How many parameters there are.
    pub fn len(&self) -> (r: usize)
        ensures
            r == self@.dom().len(),
            r == self.pair_seq().len(),
    {
        proof {
            use_type_invariant(self);
            lemma_distinct_len(pair_texts(self.entries@));
        }
        self.entries.len()
    }

    fn position(&self, name: &str) -> (r: Option<usize>)
        ensures
            match r {
                Some(i) => i < self.entries.len() && self.entries[i as int].0@ == name@,
                None => forall|j: int|
                    0 <= j < self.entries.len() ==> (#[trigger] self.entries[j]).0@ != name@,
            },
    {
        let mut i: usize = 0;
        while i < self.entries.len()
            invariant
                i <= self.entries.len(),
                forall|j: int| 0 <= j < i ==> (#[trigger] self.entries[j]).0@ != name@,
            decreases self.entries.len() - i,
        {
            if str_eq(self.entries[i].0.as_str(), name) {
                return Some(i);
            }
            i = i + 1;
        }
        None
    }

    /// The value of the parameter `name`, if there is one.
    pub fn get(&self, name: &str) -> (r: Option<&String>)
        ensures
            r is Some <==> self@.contains_key(name@),
            r matches Some(v) ==> v@ == self@[name@],
    {
        proof {
            use_type_invariant(self);
        }
        match self.position(name) {
            Some(i) => {
                proof {
                    lemma_present_name(pair_texts(self.entries@), i as int);
                }
                Some(&self.entries[i].1)
            },
            None => {
                proof {
                    let pairs = pair_texts(self.entries@);
                    assert forall|j: int| 0 <= j < pairs.len() implies (#[trigger] pairs[j]).0
                        != name@ by {
                        assert(self.entries[j].0@ != name@);
                    }
                    lemma_absent_name(pairs, name@);
                }
                None
            },
        }
    }

    /// Whether there is a parameter `name`.
    pub fn contains_key(&self, name: &str) -> (r: bool)
        ensures
            r == self@.contains_key(name@),
    {
        self.get(name).is_some()
    }

    /// Sets the parameter `name` to `value`, whether or not it was there.
    pub fn insert(&mut self, name: String, value: String)
        ensures
            final(self)@ == old(self)@.insert(name@, value@),
            !old(self)@.contains_key(name@) ==> final(self).pair_seq() == old(self).pair_seq().push(
                (name@, value@),
            ),
            final(self).pair_seq() == with_pair(old(self).pair_seq(), name@, value@),
    {
        proof {
            use_type_invariant(&*self);
        }
        let ghost before = pair_texts(self.entries@);
        let found = self.position(name.as_str());
        let mut taken = Params::new();
        core::mem::swap(self, &mut taken);
        let mut entries = taken.entries;
        assert(pair_texts(entries@) == before);
        match found {
            Some(i) => {
                proof {
                    lemma_update_in_place(before, i as int, value@);
                }
                entries.set(i, (name, value));
                assert(pair_texts(entries@) =~= before.update(
                    i as int,
                    (before[i as int].0, value@),
                ));
                proof {
                    lemma_present_name(before, i as int);
                    assert(before[i as int].0 == name@);
                }
            },
            None => {
                entries.push((name, value));
                proof {
                    let after = pair_texts(entries@);
                    assert(after.drop_last() =~= before);
                    assert(after =~= before.push((name@, value@)));
                    assert forall|j: int| 0 <= j < before.len() implies (#[trigger] before[j]).0
                        != name@ by {
                        assert(old(self).entries[j].0@ != name@);
                    }
                    lemma_absent_name(before, name@);
                    assert forall|a: int, b: int| 0 <= a < b < after.len() implies (
                    #[trigger] after[a]).0 != (#[trigger] after[b]).0 by {
                        if b < before.len() {
                            assert(after[a] == before[a]);
                            assert(after[b] == before[b]);
                        } else {
                            assert(old(self).entries[a].0@ != name@);
                            assert(after[a] == before[a]);
                        }
                    }
                }
            },
        }
        *self = Params { entries };
        proof {
            match found {
                Some(i) => {
                    let at = i as int;
                    assert forall|j: int| 0 <= j < at implies (#[trigger] before[j]).0
                        != name@ by {
                        assert(before[at].0 == name@);
                    }
                    lemma_position_of(before, name@, at);
                    assert(self.pair_seq() =~= before.update(at, (name@, value@)));
                },
                None => {
                    assert forall|j: int| 0 <= j < before.len() implies (#[trigger] before[j]).0
                        != name@ by {
                        assert(old(self).entries[j].0@ != name@);
                    }
                    lemma_position_of(before, name@, before.len() as int);
                },
            }
        }
    }

    /// The parameters that a list of pairs stands for: where a name repeats,
    /// the last value wins.
    pub fn from_pairs(pairs: Vec<(String, String)>) -> (r: Self)
        ensures
            r@ == pairs_to_map(pair_texts(pairs@)),
            r.pair_seq() == merged(pair_texts(pairs@)),
            distinct_names(pair_texts(pairs@)) ==> r.pair_seq() == pair_texts(pairs@),
    {
        let mut r = Params::new();
        let mut i: usize = 0;
        proof {
            assert(pair_texts(pairs@).take(0) =~= Seq::<(Seq<char>, Seq<char>)>::empty());
        }
        while i < pairs.len()
            invariant
                i <= pairs.len(),
                r@ == pairs_to_map(pair_texts(pairs@).take(i as int)),
                r.pair_seq() == merged(pair_texts(pairs@).take(i as int)),
                distinct_names(pair_texts(pairs@)) ==> r.pair_seq() == pair_texts(pairs@).take(
                    i as int,
                ),
            decreases pairs.len() - i,
        {
            proof {
                let all = pair_texts(pairs@);
                assert(all.take(i + 1).drop_last() =~= all.take(i as int));
                assert(all.take(i + 1).last() == all[i as int]);
                if distinct_names(all) {
                    let seen = all.take(i as int);
                    assert forall|j: int| 0 <= j < seen.len() implies (#[trigger] seen[j]).0
                        != all[i as int].0 by {
                        assert(seen[j] == all[j]);
                    }
                    lemma_absent_name(seen, all[i as int].0);
                    assert(all.take(i + 1) =~= seen.push(all[i as int]));
                }
            }
            r.insert(pairs[i].0.clone(), pairs[i].1.clone());
            i = i + 1;
        }
        assert(pair_texts(pairs@).take(i as int) =~= pair_texts(pairs@));
        r
    }

    /// The parameters as a list of pairs, each name once, in the order in
    /// which the names first came in.
    pub fn to_pairs(&self) -> (r: Vec<(String, String)>)
        ensures
            pair_texts(r@) == self.pair_seq(),
            distinct_names(pair_texts(r@)),
            pairs_to_map(pair_texts(r@)) == self@,
    {
        proof {
            use_type_invariant(self);
        }
        let c = self.clone();
        c.entries
    }
}

/// The text that shows a map of texts: in braces, each name and value in
/// quotes with a colon between them, separated by commas.
pub open spec fn map_text(pairs: PairSeq) -> Seq<char> {
    "{"@ + join_text(
        Seq::new(
            pairs.len(),
            |i: int| debug_quoted_text(pairs[i].0) + ": "@ + debug_quoted_text(pairs[i].1),
        ),
        ", "@,
    ) + "}"@
}

impl Describe for Params {
    open spec fn text(&self) -> Seq<char> {
        map_text(self.pair_seq())
    }

    fn to_string(&self) -> (r: String) {
        let map = self;
        let pairs = map.to_pairs();
        let ghost shown = Seq::new(
            map.pair_seq().len(),
            |i: int| debug_quoted_text(map.pair_seq()[i].0) + ": "@ + debug_quoted_text(
                map.pair_seq()[i].1,
            ),
        );
        let mut items: Vec<String> = Vec::new();
        let mut i: usize = 0;
        while i < pairs.len()
            invariant
                i <= pairs.len(),
                items.len() == i,
                pairs.len() == map.pair_seq().len(),
                forall|j: int|
                    0 <= j < pairs.len() ==> map.pair_seq()[j] == (
                        (#[trigger] pairs[j]).0@,
                        pairs[j].1@,
                    ),
                shown.len() == pairs.len(),
                forall|j: int|
                    0 <= j < shown.len() ==> #[trigger] shown[j] == debug_quoted_text(
                        map.pair_seq()[j].0,
                    ) + ": "@ + debug_quoted_text(map.pair_seq()[j].1),
                texts(items@) == shown.take(i as int),
            decreases pairs.len() - i,
        {
            let ghost before = texts(items@);
            let mut item = debug_quoted(pairs[i].0.as_str());
            item.append(": ");
            item.append(debug_quoted(pairs[i].1.as_str()).as_str());
            items.push(item);
            i = i + 1;
            proof {
                let after = texts(items@);
                let goal = shown.take(i as int);
                assert forall|j: int| 0 <= j < after.len() implies after[j] == goal[j] by {
                    if j < i - 1 {
                        assert(after[j] == before[j]);
                    } else {
                        assert(pairs[j].0@ == map.pair_seq()[j].0);
                    }
                }
                assert(after =~= goal);
            }
        }
        assert(shown.take(i as int) =~= shown);
        let mut r = String::from_str("{");
        r.append(join(&items, ", ").as_str());
        r.append("}");
        r
    }
}

} // verus!
