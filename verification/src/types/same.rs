//! Sameness of values: equality that does not look at the order in which a
//! map holds its entries.
use vstd::prelude::*;
use crate::types::node::{distinct_keys, lemma_view_unfold, Node, NodeMap, NodeView};
use crate::types::node_map::{key_index, lemma_key_from, lookup, same_text, Entries};

verus! {

/// Whether two values are the same: of one variant, with the same text,
/// number or bytes, with the same values at each place of an array, and with
/// the same value for each key of a map, in whatever order the maps hold
/// their entries.
pub open spec fn same_value(a: NodeView, b: NodeView) -> bool
    decreases a, 0nat,
{
    match a {
        NodeView::Array(xs) => match b {
            NodeView::Array(ys) => xs.len() == ys.len() && forall|i: int|
                0 <= i < xs.len() ==> same_value(#[trigger] xs[i], ys[i]),
            _ => false,
        },
        NodeView::Dict(xs) => match b {
            NodeView::Dict(ys) => same_entries(xs, ys),
            _ => false,
        },
        _ => a == b,
    }
}

/// Whether two maps have the same entries: as many, each key of the first
/// with the same value in the second, and no key in the second that the
/// first lacks.
pub open spec fn same_entries(xs: Entries, ys: Entries) -> bool
    decreases xs, 1nat,
{
    &&& xs.len() == ys.len()
    &&& forall|i: int|
        0 <= i < xs.len() ==> match key_index(ys, (#[trigger] xs[i]).0) {
            Some(j) => same_value(xs[i].1, ys[j].1),
            None => false,
        }
    &&& forall|j: int| 0 <= j < ys.len() ==> key_index(xs, (#[trigger] ys[j]).0) is Some
}

/// Whether what two maps give to a key is the same.
pub open spec fn same_lookup(a: Option<NodeView>, b: Option<NodeView>) -> bool {
    match (a, b) {
        (Some(x), Some(y)) => same_value(x, y),
        (None, None) => true,
        _ => false,
    }
}

/// Whether two maps have as many entries and give the same to every key.
pub open spec fn same_by_key(xs: Entries, ys: Entries) -> bool {
    xs.len() == ys.len() && forall|k: Seq<char>|
        same_lookup(#[trigger] lookup(xs, k), lookup(ys, k))
}

/// Maps with the same entries give the same to every key; and where the
/// first holds no key twice, maps that give the same to every key have the
/// same entries.
pub proof fn lemma_same_entries_by_key(xs: Entries, ys: Entries)
    ensures
        same_entries(xs, ys) ==> same_by_key(xs, ys),
        distinct_keys(xs) && same_by_key(xs, ys) ==> same_entries(xs, ys),
{
    if same_entries(xs, ys) {
        assert forall|k: Seq<char>| same_lookup(#[trigger] lookup(xs, k), lookup(ys, k)) by {
            lemma_key_from(xs, k, 0);
            lemma_key_from(ys, k, 0);
            match key_index(xs, k) {
                Some(i) => {
                    assert(xs[i].0 == k);
                },
                None => {
                    if key_index(ys, k) is Some {
                        let j = key_index(ys, k)->Some_0;
                        assert(ys[j].0 == k);
                        lemma_key_from(xs, ys[j].0, 0);
                    }
                },
            }
        }
    }
    if distinct_keys(xs) && same_by_key(xs, ys) {
        assert forall|i: int| 0 <= i < xs.len() implies match key_index(
            ys,
            (#[trigger] xs[i]).0,
        ) {
            Some(j) => same_value(xs[i].1, ys[j].1),
            None => false,
        } by {
            let k = xs[i].0;
            lemma_key_from(xs, k, 0);
            assert(key_index(xs, k) == Some(i));
            assert(same_lookup(lookup(xs, k), lookup(ys, k)));
        }
        assert forall|j: int| 0 <= j < ys.len() implies key_index(xs, (#[trigger] ys[j]).0)
            is Some by {
            let k = ys[j].0;
            lemma_key_from(ys, k, 0);
            assert(same_lookup(lookup(xs, k), lookup(ys, k)));
        }
    }
}

/// A value in which no map holds a key twice is the same as itself.
pub proof fn lemma_same_value_reflexive(value: NodeView)
    requires
        value.wf(),
    ensures
        same_value(value, value),
    decreases value,
{
    match value {
        NodeView::Array(xs) => {
            assert forall|i: int| 0 <= i < xs.len() implies same_value(#[trigger] xs[i], xs[i]) by {
                lemma_same_value_reflexive(xs[i]);
            }
            assert(same_value(value, value));
        },
        NodeView::Dict(xs) => {
            assert forall|i: int| 0 <= i < xs.len() implies match key_index(
                xs,
                (#[trigger] xs[i]).0,
            ) {
                Some(j) => same_value(xs[i].1, xs[j].1),
                None => false,
            } by {
                lemma_key_from(xs, xs[i].0, 0);
                assert(key_index(xs, xs[i].0) == Some(i));
                lemma_same_value_reflexive(xs[i].1);
            }
            assert forall|j: int| 0 <= j < xs.len() implies key_index(xs, (#[trigger] xs[j]).0)
                is Some by {
                lemma_key_from(xs, xs[j].0, 0);
            }
            assert(same_entries(xs, xs));
            assert(same_value(value, value));
        },
        _ => {},
    }
}

/// Whether two byte buffers hold the same bytes.
pub fn same_bytes(a: &Vec<u8>, b: &Vec<u8>) -> (r: bool)
    ensures
        r == (a@ == b@),
{
    if a.len() != b.len() {
        return false;
    }
    let mut i: usize = 0;
    while i < a.len()
        invariant
            i <= a@.len(),
            a@.len() == b@.len(),
            forall|j: int| 0 <= j < i ==> a@[j] == b@[j],
        decreases a@.len() - i,
    {
        if a[i] != b[i] {
            return false;
        }
        i += 1;
    }
    assert(a@ =~= b@);
    true
}

impl Node {
    /// Whether this node and another are the same value, in whatever order
    /// the maps in them hold their entries.
    #[verifier::loop_isolation(false)]
    pub fn same(&self, other: &Node) -> (r: bool)
        ensures
            r == same_value(self@, other@),
        decreases self,
    {
        proof {
            lemma_view_unfold(*self);
            lemma_view_unfold(*other);
        }
        match self {
            Node::Empty => match other {
                Node::Empty => true,
                _ => false,
            },
            Node::String(a) => match other {
                Node::String(b) => same_text(a.as_str(), b.as_str()),
                _ => false,
            },
            Node::Flag(a) => match other {
                Node::Flag(b) => *a == *b,
                _ => false,
            },
            Node::Int64(a) => match other {
                Node::Int64(b) => *a == *b,
                _ => false,
            },
            Node::Double(a) => match other {
                Node::Double(b) => a.bits == b.bits,
                _ => false,
            },
            Node::ByteArray(a) => match other {
                Node::ByteArray(b) => same_bytes(a, b),
                _ => false,
            },
            Node::Array(xs) => match other {
                Node::Array(ys) => {
                    if xs.len() != ys.len() {
                        return false;
                    }
                    let mut i: usize = 0;
                    while i < xs.len()
                        invariant
                            i <= xs@.len(),
                            xs@.len() == ys@.len(),
                            forall|j: int| 0 <= j < i ==> same_value(xs@[j]@, ys@[j]@),
                        decreases xs@.len() - i,
                    {
                        if !xs[i].same(&ys[i]) {
                            assert(!same_value(self@->Array_0[i as int], other@->Array_0[i as int]));
                            return false;
                        }
                        i += 1;
                    }
                    true
                },
                _ => false,
            },
            Node::Dict(m) => match other {
                Node::Dict(o) => m.same_entries(o),
                _ => false,
            },
        }
    }
}

impl NodeMap {
    /// Whether this map and another have the same entries, in whatever
    /// order each holds them: as many, and the same value for every key.
    #[verifier::loop_isolation(false)]
    pub fn same_entries(&self, other: &NodeMap) -> (r: bool)
        ensures
            r == same_entries(self@, other@),
            self.wf() ==> r == same_by_key(self@, other@),
        decreases self,
    {
        proof {
            lemma_same_entries_by_key(self@, other@);
        }
        if self.entries.len() != other.entries.len() {
            return false;
        }
        let mut i: usize = 0;
        while i < self.entries.len()
            invariant
                i <= self.entries@.len(),
                forall|n: int|
                    0 <= n < i ==> match key_index(other@, (#[trigger] self@[n]).0) {
                        Some(j) => same_value(self@[n].1, other@[j].1),
                        None => false,
                    },
            decreases self.entries@.len() - i,
        {
            match other.position(self.entries[i].0.as_str()) {
                Some(j) => {
                    if !self.entries[i].1.same(&other.entries[j].1) {
                        assert(!same_value(self@[i as int].1, other@[j as int].1));
                        return false;
                    }
                },
                None => {
                    assert(key_index(other@, self@[i as int].0) is None);
                    return false;
                },
            }
            i += 1;
        }
        let mut j: usize = 0;
        while j < other.entries.len()
            invariant
                j <= other.entries@.len(),
                forall|n: int| 0 <= n < j ==> key_index(self@, (#[trigger] other@[n]).0) is Some,
            decreases other.entries@.len() - j,
        {
            if self.position(other.entries[j].0.as_str()).is_none() {
                assert(key_index(self@, other@[j as int].0) is None);
                return false;
            }
            j += 1;
        }
        true
    }
}

} // verus!
