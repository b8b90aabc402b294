//! The consumer side of a walk: totals, per-group sizes and the error list,
//! with files behind one identity counted once.

use vstd::prelude::*;

use std::collections::HashSet;
use vstd::hash_map::StringHashMap;

use crate::filesize::identity_key;
use crate::groups::{group_key, GroupBy};
use crate::walk::{Error, Message};

verus! {

broadcast use vstd::std_specs::hash::group_hash_axioms, vstd::hash_map::group_hash_map_axioms;

/// The state of an aggregation: the bytes counted, the identities already
/// counted, the group keys in order of first appearance with their sizes,
/// and the errors in order of arrival.
pub struct Tally {
    pub total: int,
    pub seen: Set<u128>,
    pub keys: Seq<Seq<char>>,
    pub groups: Map<Seq<char>, int>,
    pub errors: Seq<Error>,
}

/// The sum of the sizes of the groups `keys`.
pub open spec fn sum_over(keys: Seq<Seq<char>>, groups: Map<Seq<char>, int>) -> int
    decreases keys.len(),
{
    if keys.len() == 0 {
        0
    } else {
        sum_over(keys.drop_last(), groups) + groups[keys.last()]
    }
}

/// The sum of all group sizes of a tally.
pub open spec fn group_sum(t: Tally) -> int {
    sum_over(t.keys, t.groups)
}

/// A consistent tally: each group is listed once, no size is negative, and
/// the total is the sum of the group sizes.
pub open spec fn tally_wf(t: Tally) -> bool {
    &&& t.keys.no_duplicates()
    &&& t.groups.dom() == t.keys.to_set()
    &&& forall|k: Seq<char>| #[trigger] t.groups.contains_key(k) ==> t.groups[k] >= 0
    &&& t.total == group_sum(t)
}

/// The tally before any message has arrived.
pub open spec fn empty_tally() -> Tally {
    Tally {
        total: 0,
        seen: Set::empty(),
        keys: Seq::empty(),
        groups: Map::empty(),
        errors: Seq::empty(),
    }
}

/// Whether a message adds a file to the tally: a sized entry whose identity,
/// if it has one, has not been counted yet.
pub open spec fn counts(t: Tally, m: Message) -> bool {
    match m {
        Message::SizeEntry(id, _, _) => match id {
            Some(i) => !t.seen.contains(identity_key(i)),
            None => true,
        },
        Message::Error(_) => false,
    }
}

/// Whether the total stays within `u64` when the message is taken in.
pub open spec fn fits(t: Tally, m: Message) -> bool {
    match m {
        Message::SizeEntry(_, _, size) => counts(t, m) ==> t.total + size <= u64::MAX,
        Message::Error(_) => true,
    }
}

/// `size` more bytes under key `k`.
pub open spec fn add_to_group(t: Tally, k: Seq<char>, size: int) -> Tally {
    if t.groups.contains_key(k) {
        Tally { groups: t.groups.insert(k, t.groups[k] + size), ..t }
    } else {
        Tally { keys: t.keys.push(k), groups: t.groups.insert(k, size), ..t }
    }
}

/// The tally after one message. A counted file adds its size to the total
/// and to its group and marks its identity as seen; a file whose identity was
/// seen changes nothing; an error is appended to the error list.
pub open spec fn step(t: Tally, mode: GroupBy, m: Message) -> Tally {
    match m {
        Message::SizeEntry(id, path, size) => if counts(t, m) {
            let seen = match id {
                Some(i) => t.seen.insert(identity_key(i)),
                None => t.seen,
            };
            add_to_group(
                Tally { total: t.total + size, seen, ..t },
                group_key(mode, path@),
                size as int,
            )
        } else {
            t
        },
        Message::Error(e) => Tally { errors: t.errors.push(e), ..t },
    }
}

/// The tally after a sequence of messages, in order of arrival.
pub open spec fn tally_of(mode: GroupBy, msgs: Seq<Message>) -> Tally
    decreases msgs.len(),
{
    if msgs.len() == 0 {
        empty_tally()
    } else {
        step(tally_of(mode, msgs.drop_last()), mode, msgs.last())
    }
}

proof fn lemma_sum_insert_absent(keys: Seq<Seq<char>>, g: Map<Seq<char>, int>, k: Seq<char>, v: int)
    requires
        !keys.contains(k),
    ensures
        sum_over(keys, g.insert(k, v)) == sum_over(keys, g),
    decreases keys.len(),
{
    if keys.len() > 0 {
        assert(!keys.drop_last().contains(k)) by {
            if keys.drop_last().contains(k) {
                let j = choose|j: int| 0 <= j < keys.drop_last().len() && keys.drop_last()[j] == k;
                assert(keys[j] == k);
            }
        }
        lemma_sum_insert_absent(keys.drop_last(), g, k, v);
        assert(keys.last() != k) by {
            assert(keys[keys.len() - 1] == keys.last());
        }
    }
}

proof fn lemma_sum_insert_present(keys: Seq<Seq<char>>, g: Map<Seq<char>, int>, k: Seq<char>, v: int)
    requires
        keys.no_duplicates(),
        keys.contains(k),
    ensures
        sum_over(keys, g.insert(k, v)) == sum_over(keys, g) - g[k] + v,
    decreases keys.len(),
{
    let init = keys.drop_last();
    assert(init.no_duplicates());
    if keys.last() == k {
        assert(!init.contains(k)) by {
            if init.contains(k) {
                let j = choose|j: int| 0 <= j < init.len() && init[j] == k;
                assert(keys[j] == keys[keys.len() - 1]);
            }
        }
        lemma_sum_insert_absent(init, g, k, v);
    } else {
        let j = choose|j: int| 0 <= j < keys.len() && keys[j] == k;
        assert(j != keys.len() - 1);
        assert(init[j] == k);
        lemma_sum_insert_present(init, g, k, v);
    }
}

proof fn lemma_sum_nonneg(keys: Seq<Seq<char>>, g: Map<Seq<char>, int>)
    requires
        forall|i: int| 0 <= i < keys.len() ==> g[#[trigger] keys[i]] >= 0,
    ensures
        sum_over(keys, g) >= 0,
    decreases keys.len(),
{
    if keys.len() > 0 {
        let init = keys.drop_last();
        assert forall|i: int| 0 <= i < init.len() implies g[#[trigger] init[i]] >= 0 by {
            assert(init[i] == keys[i]);
        }
        lemma_sum_nonneg(init, g);
        assert(g[keys[keys.len() - 1]] >= 0);
    }
}

proof fn lemma_value_le_sum(keys: Seq<Seq<char>>, g: Map<Seq<char>, int>, k: Seq<char>)
    requires
        keys.contains(k),
        forall|i: int| 0 <= i < keys.len() ==> g[#[trigger] keys[i]] >= 0,
    ensures
        g[k] <= sum_over(keys, g),
    decreases keys.len(),
{
    let init = keys.drop_last();
    assert forall|i: int| 0 <= i < init.len() implies g[#[trigger] init[i]] >= 0 by {
        assert(init[i] == keys[i]);
    }
    lemma_sum_nonneg(init, g);
    assert(sum_over(keys, g) == sum_over(init, g) + g[keys.last()]);
    if keys.last() != k {
        let j = choose|j: int| 0 <= j < keys.len() && keys[j] == k;
        assert(j != keys.len() - 1);
        assert(init[j] == k);
        lemma_value_le_sum(init, g, k);
        assert(g[keys[keys.len() - 1]] >= 0);
    }
}

/// In a consistent tally every group's size is at most the total.
pub proof fn lemma_group_le_total(t: Tally, k: Seq<char>)
    requires
        tally_wf(t),
        t.groups.contains_key(k),
    ensures
        0 <= t.groups[k] <= t.total,
{
    assert(t.keys.to_set().contains(k));
    assert forall|i: int| 0 <= i < t.keys.len() implies t.groups[#[trigger] t.keys[i]] >= 0 by {
        assert(t.keys.to_set().contains(t.keys[i]));
    }
    lemma_value_le_sum(t.keys, t.groups, k);
}

/// Every message keeps a tally consistent.
pub proof fn lemma_step_wf(t: Tally, mode: GroupBy, m: Message)
    requires
        tally_wf(t),
    ensures
        tally_wf(step(t, mode, m)),
{
    match m {
        Message::SizeEntry(id, path, size) => {
            if counts(t, m) {
                let k = group_key(mode, path@);
                let t2 = step(t, mode, m);
                if t.groups.contains_key(k) {
                    assert(t.keys.to_set().contains(k));
                    lemma_sum_insert_present(t.keys, t.groups, k, t.groups[k] + size);
                    assert(t2.groups.dom() =~= t2.keys.to_set());
                } else {
                    assert(!t.keys.contains(k)) by {
                        if t.keys.contains(k) {
                            assert(t.keys.to_set().contains(k));
                        }
                    }
                    lemma_sum_insert_absent(t.keys, t.groups, k, size as int);
                    assert(t2.keys.drop_last() =~= t.keys);
                    assert forall|x: Seq<char>| #[trigger] t2.keys.contains(x) <==> (t.keys.contains(x)
                        || x == k) by {
                        if t.keys.contains(x) {
                            let i = choose|i: int| 0 <= i < t.keys.len() && t.keys[i] == x;
                            assert(t2.keys[i] == x);
                        }
                        if x == k {
                            assert(t2.keys[t.keys.len() as int] == k);
                        }
                        if t2.keys.contains(x) && x != k {
                            let i = choose|i: int| 0 <= i < t2.keys.len() && t2.keys[i] == x;
                            assert(t.keys[i] == x);
                        }
                    }
                    assert(t2.keys.to_set() =~= t.keys.to_set().insert(k));
                    assert(t2.groups.dom() =~= t2.keys.to_set());
                    assert(t2.keys.no_duplicates()) by {
                        assert forall|i: int, j: int|
                            0 <= i < t2.keys.len() && 0 <= j < t2.keys.len() && i != j
                            implies t2.keys[i] != t2.keys[j] by {
                            if i == t.keys.len() {
                                assert(t.keys.contains(t2.keys[j]) ==> t2.keys[j] != k);
                                assert(t2.keys[j] == t.keys[j]);
                            } else if j == t.keys.len() {
                                assert(t2.keys[i] == t.keys[i]);
                            }
                        }
                    }
                }
            }
        },
        Message::Error(_) => {},
    }
}

/// Whatever messages arrive, in whatever order, the total equals the sum of
/// the group sizes.
pub proof fn lemma_total_is_group_sum(mode: GroupBy, msgs: Seq<Message>)
    ensures
        tally_wf(tally_of(mode, msgs)),
        tally_of(mode, msgs).total == group_sum(tally_of(mode, msgs)),
    decreases msgs.len(),
{
    if msgs.len() == 0 {
        assert(empty_tally().keys.to_set() =~= Set::empty());
        assert(empty_tally().groups.dom() =~= Set::empty());
    } else {
        lemma_total_is_group_sum(mode, msgs.drop_last());
        lemma_step_wf(tally_of(mode, msgs.drop_last()), mode, msgs.last());
    }
}

/// Once a file's identity has been counted, any further name of it, whatever
/// its path or reported size, leaves the tally unchanged.
pub proof fn lemma_seen_identity_ignored(
    t: Tally,
    mode: GroupBy,
    id: crate::filesize::Identity,
    path: String,
    size: u64,
)
    requires
        t.seen.contains(identity_key(id)),
    ensures
        step(t, mode, Message::SizeEntry(Some(id), path, size)) == t,
{
}

/// Two names of one physical file, met in either order, add its size once to
/// the total and once to the sum of the groups; the second leaves the tally
/// as the first made it.
pub proof fn lemma_hard_link_counted_once(
    t: Tally,
    mode: GroupBy,
    id: crate::filesize::Identity,
    first: String,
    second: String,
    size: u64,
)
    requires
        tally_wf(t),
        !t.seen.contains(identity_key(id)),
    ensures
        ({
            let once = step(t, mode, Message::SizeEntry(Some(id), first, size));
            let twice = step(once, mode, Message::SizeEntry(Some(id), second, size));
            &&& twice == once
            &&& twice.total == t.total + size
            &&& group_sum(twice) == group_sum(t) + size
            &&& twice.seen == t.seen.insert(identity_key(id))
        }),
{
    lemma_step_wf(t, mode, Message::SizeEntry(Some(id), first, size));
}

/// The single consumer of a walk's messages. It alone owns the set of counted
/// identities, the group sizes and the error list.
pub struct Aggregator {
    group_by: GroupBy,
    total: u64,
    ids: HashSet<u128>,
    sizes: StringHashMap<u64>,
    keys: Vec<String>,
    errors: Vec<Error>,
}

impl View for Aggregator {
    type V = Tally;

    closed spec fn view(&self) -> Tally {
        Tally {
            total: self.total as int,
            seen: self.ids@,
            keys: self.keys@.map_values(|s: String| s@),
            groups: self.sizes@.map_values(|v: u64| v as int),
            errors: self.errors@,
        }
    }
}

impl Aggregator {
    /// The grouping mode that keys are computed with.
    pub closed spec fn mode(&self) -> GroupBy {
        self.group_by
    }

    /// The aggregator is consistent.
    pub open spec fn wf(&self) -> bool {
        tally_wf(self@)
    }

    /// An aggregator that has seen nothing yet.
    pub fn new(group_by: GroupBy) -> (r: Aggregator)
        ensures
            r.wf(),
            r@ == empty_tally(),
            r.mode() == group_by,
    {
        let r = Aggregator {
            group_by,
            total: 0,
            ids: HashSet::new(),
            sizes: StringHashMap::new(),
            keys: Vec::new(),
            errors: Vec::new(),
        };
        assert(r@.keys =~= Seq::<Seq<char>>::empty());
        assert(r@.groups =~= Map::<Seq<char>, int>::empty());
        assert(r@.keys.to_set() =~= Set::empty());
        r
    }

    /// Takes in one message. Returns false, and changes nothing, only where
    /// counting the file would carry the total past `u64::MAX`.
    pub fn receive(&mut self, msg: Message) -> (ok: bool)
        requires
            old(self).wf(),
        ensures
            final(self).wf(),
            final(self).mode() == old(self).mode(),
            ok == fits(old(self)@, msg),
            ok ==> final(self)@ == step(old(self)@, old(self).mode(), msg),
            !ok ==> final(self)@ == old(self)@,
    {
        let ghost t0 = self@;
        let ghost m0 = msg;
        match msg {
            Message::SizeEntry(id, path, size) => {
                match id {
                    Some(i) => {
                        if self.ids.contains(&i.key()) {
                            return true;
                        }
                    },
                    None => {},
                }
                if size > u64::MAX - self.total {
                    return false;
                }
                match id {
                    Some(i) => {
                        self.ids.insert(i.key());
                    },
                    None => {},
                }
                let key = self.group_by.key(path.as_str());
                let ghost k = key@;
                let found = match self.sizes.get(key.as_str()) {
                    Some(v) => Some(*v),
                    None => None,
                };
                match found {
                    Some(v) => {
                        proof {
                            lemma_group_le_total(t0, k);
                        }
                        self.sizes.insert(key, v + size);
                        assert(self@.groups =~= t0.groups.insert(k, t0.groups[k] + size));
                    },
                    None => {
                        self.keys.push(key.clone());
                        self.sizes.insert(key, size);
                        assert(self@.keys =~= t0.keys.push(k));
                        assert(self@.groups =~= t0.groups.insert(k, size as int));
                    },
                }
                self.total = self.total + size;
                proof {
                    lemma_step_wf(t0, self.group_by, m0);
                }
                assert(self@ == step(t0, self.group_by, m0));
                true
            },
            Message::Error(e) => {
                self.errors.push(e);
                assert(self@.keys =~= t0.keys);
                assert(self@.groups =~= t0.groups);
                true
            },
        }
    }

    /// The bytes counted so far.
    pub fn total(&self) -> (r: u64)
        ensures
            r == self@.total,
    {
        self.total
    }

    /// The errors received so far, in order of arrival.
    pub fn errors(&self) -> (r: &Vec<Error>)
        ensures
            r@ == self@.errors,
    {
        &self.errors
    }

    /// The final result: the total, each group with its size in order of first
    /// appearance, and the errors in order of arrival.
    pub fn finish(self) -> (r: (u64, Vec<(String, u64)>, Vec<Error>))
        requires
            self.wf(),
        ensures
            r.0 == self@.total,
            r.1@.len() == self@.keys.len(),
            forall|i: int|
                0 <= i < r.1@.len() ==> (#[trigger] r.1@[i]).0@ == self@.keys[i] && r.1@[i].1
                    == self@.groups[self@.keys[i]],
            r.2@ == self@.errors,
    {
        let ghost t = self@;
        let mut rows: Vec<(String, u64)> = Vec::new();
        let mut i: usize = 0;
        while i < self.keys.len()
            invariant
                t == self@,
                tally_wf(t),
                i <= self.keys@.len(),
                rows@.len() == i,
                forall|j: int|
                    0 <= j < i ==> (#[trigger] rows@[j]).0@ == t.keys[j] && rows@[j].1
                        == t.groups[t.keys[j]],
            decreases self.keys@.len() - i,
        {
            let k = &self.keys[i];
            assert(t.keys[i as int] == k@);
            assert(t.keys.to_set().contains(k@));
            let v = match self.sizes.get(k.as_str()) {
                Some(v) => *v,
                None => 0,
            };
            rows.push((k.clone(), v));
            i = i + 1;
        }
        (self.total, rows, self.errors)
    }
}

} // verus!
