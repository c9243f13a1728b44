//! Maps from text keys to nodes, kept as entries in insertion order.
use vstd::prelude::*;
use vstd::utf8::encode_utf8;
use crate::error::{Error, Fault};
use crate::format::Format;
use crate::memory::{Addr, Memory, RawNodeList};
use crate::types::node::{distinct_keys, entries_view, Node, NodeMap, NodeView};
use crate::types::reading::{map_from_list, map_from_ptr, read_map, read_map_cell};
use crate::types::traits::{MpvFormat, MpvRecv, MpvSend};
use crate::types::writing::{holds_map, lemma_holds_map_extends, unwritable_entries, write_map};

verus! {

/// The keys and values of a map, in order.
pub type Entries = Seq<(Seq<char>, NodeView)>;

/// The position of the first entry with the key at or after `start`.
pub open spec fn key_from(entries: Entries, key: Seq<char>, start: int) -> Option<int>
    decreases entries.len() - start,
{
    if start < 0 || start >= entries.len() {
        None
    } else if entries[start].0 == key {
        Some(start)
    } else {
        key_from(entries, key, start + 1)
    }
}

/// The position of the first entry with the key.
pub open spec fn key_index(entries: Entries, key: Seq<char>) -> Option<int> {
    key_from(entries, key, 0)
}

/// The value that the entries give to a key.
pub open spec fn lookup(entries: Entries, key: Seq<char>) -> Option<NodeView> {
    match key_index(entries, key) {
        Some(i) => Some(entries[i].1),
        None => None,
    }
}

/// The entries after a key is given a value: the value takes the place of
/// the one that the key had, or the entry is added at the end.
pub open spec fn insert_entry(entries: Entries, key: Seq<char>, value: NodeView) -> Entries {
    match key_index(entries, key) {
        Some(i) => entries.update(i, (key, value)),
        None => entries.push((key, value)),
    }
}

/// The entries that come of inserting the first `count` keys with their
/// values, one after the other: where a key occurs again, its later value
/// takes the place of the earlier one.
pub open spec fn zip_entries(keys: Seq<Seq<char>>, values: Seq<NodeView>, count: nat) -> Entries
    decreases count,
{
    if count == 0 {
        Seq::empty()
    } else {
        insert_entry(
            zip_entries(keys, values, (count - 1) as nat),
            keys[count - 1],
            values[count - 1],
        )
    }
}

/// What `key_from` finds is an entry with the key, with none between
/// `start` and it; where it finds nothing, there is none from `start` on.
pub proof fn lemma_key_from(entries: Entries, key: Seq<char>, start: int)
    requires
        0 <= start,
    ensures
        match key_from(entries, key, start) {
            Some(i) => start <= i < entries.len() && entries[i].0 == key && forall|j: int|
                start <= j < i ==> entries[j].0 != key,
            None => forall|j: int| start <= j < entries.len() ==> entries[j].0 != key,
        },
    decreases entries.len() - start,
{
    if start < entries.len() && entries[start].0 != key {
        lemma_key_from(entries, key, start + 1);
    }
}

/// Inserting into entries without a repeated key leaves no key repeated.
pub proof fn lemma_insert_distinct(entries: Entries, key: Seq<char>, value: NodeView)
    requires
        distinct_keys(entries),
    ensures
        distinct_keys(insert_entry(entries, key, value)),
        insert_entry(entries, key, value).len() >= entries.len(),
{
    lemma_key_from(entries, key, 0);
}

/// Whatever the keys were, the entries that come of inserting them one by
/// one hold no key twice.
pub proof fn lemma_zip_distinct(keys: Seq<Seq<char>>, values: Seq<NodeView>, count: nat)
    ensures
        distinct_keys(zip_entries(keys, values, count)),
    decreases count,
{
    if count > 0 {
        lemma_zip_distinct(keys, values, (count - 1) as nat);
        lemma_insert_distinct(
            zip_entries(keys, values, (count - 1) as nat),
            keys[count - 1],
            values[count - 1],
        );
    }
}

/// Inserting the keys of entries that hold no key twice, with their values
/// and in their order, gives the entries again.
pub proof fn lemma_zip_of_distinct(
    entries: Entries,
    keys: Seq<Seq<char>>,
    values: Seq<NodeView>,
    count: nat,
)
    requires
        distinct_keys(entries),
        count <= entries.len(),
        keys.len() >= count,
        values.len() >= count,
        forall|i: int| 0 <= i < count ==> keys[i] == entries[i].0 && values[i] == entries[i].1,
    ensures
        zip_entries(keys, values, count) == entries.subrange(0, count as int),
    decreases count,
{
    if count == 0 {
        assert(entries.subrange(0, 0) =~= Seq::empty());
    } else {
        let before = (count - 1) as nat;
        lemma_zip_of_distinct(entries, keys, values, before);
        let prefix = entries.subrange(0, before as int);
        lemma_key_from(prefix, keys[before as int], 0);
        assert(key_index(prefix, keys[before as int]) is None) by {
            if key_index(prefix, keys[before as int]) is Some {
                let j = key_index(prefix, keys[before as int])->Some_0;
                assert(prefix[j].0 == entries[j].0);
            }
        }
        assert(prefix.push((keys[before as int], values[before as int])) =~= entries.subrange(
            0,
            count as int,
        ));
    }
}

/// Whether two pieces of text are the same, decided on their bytes.
pub fn same_text(a: &str, b: &str) -> (r: bool)
    ensures
        r == (a@ == b@),
{
    broadcast use vstd::utf8::encode_utf8_decode_utf8;

    let x = a.as_bytes();
    let y = b.as_bytes();
    if x.len() != y.len() {
        return false;
    }
    let mut i: usize = 0;
    while i < x.len()
        invariant
            i <= x.len(),
            x.len() == y.len(),
            x@ == encode_utf8(a@),
            y@ == encode_utf8(b@),
            forall|j: int| 0 <= j < i ==> x@[j] == y@[j],
        decreases x.len() - i,
    {
        if x[i] != y[i] {
            return false;
        }
        i += 1;
    }
    assert(x@ =~= y@);
    assert(vstd::utf8::decode_utf8(encode_utf8(a@)) == a@);
    assert(vstd::utf8::decode_utf8(encode_utf8(b@)) == b@);
    true
}

/// The entries of a vector with one more entry at its end.
pub proof fn lemma_entries_view_push(entries: Seq<(String, Node)>, entry: (String, Node))
    ensures
        entries_view(entries.push(entry)) == entries_view(entries).push((entry.0@, entry.1@)),
{
    assert(entries_view(entries.push(entry)) =~= entries_view(entries).push((entry.0@, entry.1@)));
}

/// The entries of a vector with one entry replaced.
pub proof fn lemma_entries_view_update(
    entries: Seq<(String, Node)>,
    i: int,
    entry: (String, Node),
)
    requires
        0 <= i < entries.len(),
    ensures
        entries_view(entries.update(i, entry)) == entries_view(entries).update(
            i,
            (entry.0@, entry.1@),
        ),
{
    assert(entries_view(entries.update(i, entry)) =~= entries_view(entries).update(
        i,
        (entry.0@, entry.1@),
    ));
}

impl NodeMap {
    /// Whether no key occurs twice.
    pub open spec fn wf(&self) -> bool {
        distinct_keys(self@)
    }

    /// A map without entries.
    pub fn new() -> (map: NodeMap)
        ensures
            map@ == Seq::<(Seq<char>, NodeView)>::empty(),
            map.wf(),
    {
        let map = NodeMap { entries: Vec::new() };
        assert(map@ =~= Seq::<(Seq<char>, NodeView)>::empty());
        map
    }

    /// The number of entries.
    pub fn len(&self) -> (n: usize)
        ensures
            n == self@.len(),
    {
        self.entries.len()
    }

    /// Whether the map has no entries.
    pub fn is_empty(&self) -> (r: bool)
        ensures
            r == (self@.len() == 0),
    {
        self.entries.len() == 0
    }

    /// The position of the first entry with the key.
    pub fn position(&self, key: &str) -> (r: Option<usize>)
        ensures
            match r {
                Some(i) => key_index(self@, key@) == Some(i as int) && i < self.entries@.len(),
                None => key_index(self@, key@) is None,
            },
    {
        let mut i: usize = 0;
        while i < self.entries.len()
            invariant
                i <= self.entries.len(),
                key_index(self@, key@) == key_from(self@, key@, i as int),
            decreases self.entries.len() - i,
        {
            if same_text(self.entries[i].0.as_str(), key) {
                return Some(i);
            }
            i += 1;
        }
        None
    }

    /// The value of a key, if the map has the key.
    pub fn get(&self, key: &str) -> (r: Option<&Node>)
        ensures
            match r {
                Some(node) => lookup(self@, key@) == Some(node@),
                None => lookup(self@, key@) is None,
            },
    {
        match self.position(key) {
            Some(i) => Some(&self.entries[i].1),
            None => None,
        }
    }

    /// Gives a key a value. The value takes the place of the one that the
    /// key had; a new key is added after the others.
    pub fn insert(&mut self, key: String, value: Node)
        ensures
            final(self)@ == insert_entry(old(self)@, key@, value@),
            old(self).wf() ==> final(self).wf(),
    {
        proof {
            if self.wf() {
                lemma_insert_distinct(self@, key@, value@);
            }
        }
        match self.position(key.as_str()) {
            Some(i) => {
                proof {
                    lemma_entries_view_update(self.entries@, i as int, (key, value));
                }
                self.entries.set(i, (key, value));
            },
            None => {
                proof {
                    lemma_entries_view_push(self.entries@, (key, value));
                }
                self.entries.push((key, value));
            },
        }
    }
}


/// The transient foreign shape of a map: a memory of its own, and in it the
/// node list, the two parallel contiguous arrays that the list points to,
/// the terminated keys, and what the nodes of the values refer to.
#[derive(Debug)]
pub struct MpvNodeMap {
    /// The memory that holds the shape.
    pub memory: Memory,
    /// Address of the node list.
    pub node_list: Addr,
}

impl MpvNodeMap {
    /// The address of the node list.
    pub fn ptr(&self) -> (ptr: Addr)
        ensures
            ptr == self.node_list,
    {
        self.node_list
    }
}

/// Builds the transient foreign shape of a map.
///
/// Fails when a key, or a piece of text in a value, holds a NUL byte.
pub fn map_to_mpv_repr(map: &NodeMap) -> (r: Result<MpvNodeMap, Error>)
    ensures
        crate::types::writing::wrote(r, unwritable_entries(map@, map@.len())),
        r matches Ok(repr) ==> holds_map(repr.memory, repr.node_list, usize::MAX, map@),
{
    let mut memory = Memory::new();
    match write_map(&mut memory, map) {
        Ok(node_list) => {
            proof {
                lemma_holds_map_extends(memory, memory, node_list, node_list, usize::MAX, map@);
            }
            Ok(MpvNodeMap { memory, node_list })
        },
        Err(e) => Err(e),
    }
}

impl MpvFormat for NodeMap {
    type Model = Seq<(Seq<char>, NodeView)>;

    const MPV_FORMAT: Format = Format::NodeMap;

    open spec fn model(&self) -> Seq<(Seq<char>, NodeView)> {
        self@
    }
}

impl MpvRecv for NodeMap {
    type Cell = RawNodeList;

    open spec fn zeroed() -> RawNodeList {
        RawNodeList { num: 0, values: 0, keys: 0 }
    }

    open spec fn read_at(mem: Memory, ptr: Addr) -> Result<Seq<(Seq<char>, NodeView)>, Fault> {
        read_map(mem, ptr, usize::MAX)
    }

    open spec fn read_cell(mem: Memory, cell: RawNodeList) -> Result<
        Seq<(Seq<char>, NodeView)>,
        Fault,
    > {
        read_map_cell(mem, cell, usize::MAX)
    }

    open spec fn released(before: Memory, cell: RawNodeList, after: Memory) -> bool {
        after == before
    }

    fn zero_cell() -> RawNodeList {
        RawNodeList { num: 0, values: 0, keys: 0 }
    }

    fn from_ptr(mem: &Memory, ptr: Addr) -> (r: Result<NodeMap, Error>) {
        map_from_ptr(mem, ptr, usize::MAX)
    }

    fn from_reply(mem: &mut Memory, status: Result<i32, Error>, cell: RawNodeList) -> (r: Result<
        NodeMap,
        Error,
    >) {
        match status {
            Ok(_) => map_from_list(mem, &cell, usize::MAX),
            Err(e) => Err(e),
        }
    }

    fn from_mpv<F: FnOnce(Memory, RawNodeList) -> (Result<i32, Error>, Memory, RawNodeList)>(
        mem: &mut Memory,
        fun: F,
    ) -> (r: Result<NodeMap, Error>) {
        let mut taken = Memory::new();
        core::mem::swap(mem, &mut taken);
        let (status, back, cell) = fun(taken, RawNodeList { num: 0, values: 0, keys: 0 });
        *mem = back;
        Self::from_reply(mem, status, cell)
    }
}

impl MpvSend for NodeMap {
    open spec fn holds(mem: Memory, ptr: Addr, value: Seq<(Seq<char>, NodeView)>) -> bool {
        holds_map(mem, ptr, usize::MAX, value)
    }

    open spec fn unwritable(value: Seq<(Seq<char>, NodeView)>) -> Option<int> {
        unwritable_entries(value, value.len())
    }

    fn to_mpv<F: FnOnce(&Memory, Addr) -> Result<i32, Error>>(&self, fun: F) -> (r: Result<
        i32,
        Error,
    >) {
        match map_to_mpv_repr(self) {
            Ok(repr) => {
                assert(Self::holds(repr.memory, repr.node_list, self.model()));
                fun(&repr.memory, repr.ptr())
            },
            Err(e) => Err(e),
        }
    }
}


/// The keys of entries, in order.
pub open spec fn keys_of(entries: Entries) -> Seq<Seq<char>> {
    Seq::new(entries.len(), |i: int| entries[i].0)
}

/// The values of entries, in order.
pub open spec fn values_of(entries: Entries) -> Seq<NodeView> {
    Seq::new(entries.len(), |i: int| entries[i].1)
}

/// The entries of the map that pairs of a key and a value make when they
/// are inserted in order.
pub open spec fn from_pairs(pairs: Entries) -> Entries {
    zip_entries(keys_of(pairs), values_of(pairs), pairs.len())
}

/// Pairs without a repeated key make the map that has them as its entries.
pub proof fn lemma_from_distinct_pairs(pairs: Entries)
    requires
        distinct_keys(pairs),
    ensures
        from_pairs(pairs) == pairs,
{
    lemma_zip_of_distinct(pairs, keys_of(pairs), values_of(pairs), pairs.len());
    assert(pairs.subrange(0, pairs.len() as int) =~= pairs);
}

impl NodeMap {
    /// The map that pairs of a key and a value make when they are inserted
    /// in order. Where a key occurs again, its later value stays.
    #[verifier::loop_isolation(false)]
    pub fn from_entries(pairs: Vec<(String, Node)>) -> (map: NodeMap)
        ensures
            map@ == from_pairs(entries_view(pairs@)),
            map.wf(),
    {
        let ghost all = entries_view(pairs@);
        let count = pairs.len();
        let mut rest = crate::types::reading::reversed(pairs);
        let mut map = NodeMap::new();
        let mut i: usize = 0;
        while i < count
            invariant
                i <= count,
                rest@.len() == count - i,
                forall|j: int|
                    0 <= j < rest@.len() ==> (#[trigger] rest@[j]).0@ == all[count - 1 - j].0
                        && rest@[j].1@ == all[count - 1 - j].1,
                map@ == zip_entries(keys_of(all), values_of(all), i as nat),
                map.wf(),
            decreases count - i,
        {
            match rest.pop() {
                Some(pair) => {
                    let (key, value) = pair;
                    map.insert(key, value);
                },
                None => {},
            }
            i += 1;
        }
        map
    }
}

} // verus!
