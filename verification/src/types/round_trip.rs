//! What was written is what is read: the shape of a value in foreign
//! memory reads as that value.
use vstd::prelude::*;
use vstd::utf8::encode_utf8;
use crate::error::Fault;
use crate::event::{read_property, PropertyValue, PropertyValueView};
use crate::memory::{
    lemma_flag_word,
    lemma_int64_word,
    word_addr,
    Addr,
    Memory,
    RawNode,
};
use crate::text::{first_nul, lemma_text_of_terminated, text_at, writable};
use crate::types::basics::{holds_text, text_cell_at, Double};
use crate::types::traits::{MpvRecv, MpvSend};
use crate::types::byte_array::lemma_holds_bytes_reads;
use crate::types::node::{holds_node_at, read_node_at, NodeView};
use crate::types::node_map::{lemma_zip_of_distinct, zip_entries, Entries};
use crate::types::reading::{
    read_keys,
    read_list,
    read_map,
    read_node,
    read_nodes,
};
use crate::types::writing::{
    holds_list,
    holds_map,
    holds_node,
    unwritable_entries,
    unwritable_node,
    unwritable_nodes,
};

verus! {

/// Where nothing among the first `count` values is unwritable, none of them
/// is.
pub proof fn lemma_writable_nodes(values: Seq<NodeView>, count: nat, i: int)
    requires
        0 <= i < count <= values.len(),
        unwritable_nodes(values, count) is None,
    ensures
        unwritable_node(values[i]) is None,
    decreases count,
{
    if i < count - 1 {
        lemma_writable_nodes(values, (count - 1) as nat, i);
    }
}

/// Where nothing among the first `count` entries is unwritable, each of
/// them has a writable key and a writable value.
pub proof fn lemma_writable_entries(entries: Entries, count: nat, i: int)
    requires
        0 <= i < count <= entries.len(),
        unwritable_entries(entries, count) is None,
    ensures
        writable(entries[i].0),
        unwritable_node(entries[i].1) is None,
    decreases count,
{
    if i < count - 1 {
        lemma_writable_entries(entries, (count - 1) as nat, i);
    }
}

/// Nodes that each read as a value read, together, as the sequence of those
/// values.
pub proof fn lemma_read_nodes_of(
    mem: Memory,
    nodes: Seq<RawNode>,
    values: Seq<NodeView>,
    count: nat,
    limit: Addr,
)
    requires
        count <= values.len(),
        forall|i: int|
            0 <= i < count ==> read_node(mem, #[trigger] nodes[i], limit) == Ok::<NodeView, Fault>(
                values[i],
            ),
    ensures
        read_nodes(mem, nodes, count, limit) == Ok::<Seq<NodeView>, Fault>(
            values.subrange(0, count as int),
        ),
    decreases count,
{
    if count == 0 {
        assert(values.subrange(0, 0) =~= Seq::<NodeView>::empty());
    } else {
        lemma_read_nodes_of(mem, nodes, values, (count - 1) as nat, limit);
        assert(values.subrange(0, count - 1).push(values[count - 1]) =~= values.subrange(
            0,
            count as int,
        ));
    }
}

/// Pointers that each lead to the text of a key read, together, as the
/// sequence of those keys.
pub proof fn lemma_read_keys_of(
    mem: Memory,
    keys: Seq<Addr>,
    texts: Seq<Seq<char>>,
    count: nat,
    limit: Addr,
)
    requires
        count <= texts.len(),
        forall|i: int|
            0 <= i < count ==> text_at(mem, #[trigger] keys[i], limit) == Ok::<Seq<char>, Fault>(
                texts[i],
            ),
    ensures
        read_keys(mem, keys, count, limit) == Ok::<Seq<Seq<char>>, Fault>(
            texts.subrange(0, count as int),
        ),
    decreases count,
{
    if count == 0 {
        assert(texts.subrange(0, 0) =~= Seq::<Seq<char>>::empty());
    } else {
        lemma_read_keys_of(mem, keys, texts, (count - 1) as nat, limit);
        assert(texts.subrange(0, count - 1).push(texts[count - 1]) =~= texts.subrange(
            0,
            count as int,
        ));
    }
}

/// Round trip: a node that is the foreign shape of a value reads as that
/// value, with the same variants, texts, numbers, bytes and map entries at
/// every level.
///
/// The value has to be one that the foreign format can carry: no map in it
/// has a key twice, its counts fit the count field, and none of its texts
/// holds a NUL byte.
pub proof fn lemma_round_trip(mem: Memory, node: RawNode, limit: Addr, value: NodeView)
    requires
        holds_node(mem, node, limit, value),
        value.wf(),
        value.fits(),
        unwritable_node(value) is None,
    ensures
        read_node(mem, node, limit) == Ok::<NodeView, Fault>(value),
    decreases value,
{
    match value {
        NodeView::Empty => {},
        NodeView::String(s) => {
            lemma_text_of_terminated(s);
        },
        NodeView::Flag(b) => {
            lemma_flag_word(b);
        },
        NodeView::Int64(x) => {
            lemma_int64_word(x);
        },
        NodeView::Double(d) => {},
        NodeView::Array(vs) => {
            lemma_round_trip_list(mem, word_addr(node.u), limit, vs);
        },
        NodeView::Dict(es) => {
            lemma_round_trip_map(mem, word_addr(node.u), limit, es);
        },
        NodeView::ByteArray(bs) => {
            lemma_holds_bytes_reads(mem, word_addr(node.u), limit, bs);
        },
    }
}

/// Round trip for arrays: a node list that is the foreign shape of an array
/// reads as that array.
pub proof fn lemma_round_trip_list(mem: Memory, ptr: Addr, limit: Addr, values: Seq<NodeView>)
    requires
        holds_list(mem, ptr, limit, values),
        NodeView::Array(values).wf(),
        NodeView::Array(values).fits(),
        unwritable_nodes(values, values.len()) is None,
    ensures
        read_list(mem, ptr, limit) == Ok::<Seq<NodeView>, Fault>(values),
    decreases values,
{
    let list = mem.list_at(ptr, limit)->Some_0;
    let nodes = mem.nodes_at(list.values, (ptr - 1) as usize)->Some_0;
    let inner = (list.values - 1) as usize;
    assert forall|i: int| 0 <= i < values.len() implies read_node(
        mem,
        #[trigger] nodes[i],
        inner,
    ) == Ok::<NodeView, Fault>(values[i]) by {
        lemma_writable_nodes(values, values.len(), i);
        lemma_round_trip(mem, nodes[i], inner, values[i]);
    }
    lemma_read_nodes_of(mem, nodes, values, values.len(), inner);
    assert(values.subrange(0, values.len() as int) =~= values);
}

/// Round trip for maps: a node list that is the foreign shape of a map
/// reads as a map with the same entries.
pub proof fn lemma_round_trip_map(mem: Memory, ptr: Addr, limit: Addr, entries: Entries)
    requires
        holds_map(mem, ptr, limit, entries),
        NodeView::Dict(entries).wf(),
        NodeView::Dict(entries).fits(),
        unwritable_entries(entries, entries.len()) is None,
    ensures
        read_map(mem, ptr, limit) == Ok::<Entries, Fault>(entries),
    decreases entries,
{
    let list = mem.list_at(ptr, limit)->Some_0;
    let nodes = mem.nodes_at(list.values, (ptr - 1) as usize)->Some_0;
    let keys = mem.pointers_at(list.keys, (ptr - 1) as usize)->Some_0;
    let inner = (list.values - 1) as usize;
    let key_limit = (list.keys - 1) as usize;
    let count = entries.len();
    let values = Seq::new(count, |i: int| entries[i].1);
    let texts = Seq::new(count, |i: int| entries[i].0);
    assert forall|i: int| 0 <= i < count implies read_node(mem, #[trigger] nodes[i], inner)
        == Ok::<NodeView, Fault>(values[i]) by {
        lemma_writable_entries(entries, count, i);
        lemma_round_trip(mem, nodes[i], inner, entries[i].1);
    }
    assert forall|i: int| 0 <= i < count implies text_at(mem, #[trigger] keys[i], key_limit)
        == Ok::<Seq<char>, Fault>(texts[i]) by {
        lemma_writable_entries(entries, count, i);
        lemma_text_of_terminated(entries[i].0);
    }
    lemma_read_nodes_of(mem, nodes, values, count, inner);
    lemma_read_keys_of(mem, keys, texts, count, key_limit);
    assert(values.subrange(0, count as int) =~= values);
    assert(texts.subrange(0, count as int) =~= texts);
    lemma_zip_of_distinct(entries, texts, values, count);
    assert(entries.subrange(0, count as int) =~= entries);
}

/// Round trip through a pointer to a node.
pub proof fn lemma_round_trip_node_at(mem: Memory, ptr: Addr, limit: Addr, value: NodeView)
    requires
        holds_node_at(mem, ptr, limit, value),
        value.wf(),
        value.fits(),
        unwritable_node(value) is None,
    ensures
        read_node_at(mem, ptr, limit) == Ok::<NodeView, Fault>(value),
{
    let nodes = mem.nodes_at(ptr, limit)->Some_0;
    lemma_round_trip(mem, nodes[0], (ptr - 1) as usize, value);
}

/// Round trip for text: a text cell for a piece of text without a NUL byte
/// reads as that text.
pub proof fn lemma_round_trip_text(mem: Memory, ptr: Addr, text: Seq<char>)
    requires
        holds_text(mem, ptr, text),
        first_nul(encode_utf8(text)) is None,
    ensures
        text_cell_at(mem, ptr) == Ok::<Seq<char>, Fault>(text),
{
    lemma_text_of_terminated(text);
}

/// Round trip for flags, integers and doubles: the cell that was written
/// for a value reads as that value.
pub proof fn lemma_round_trip_scalars(mem: Memory, ptr: Addr, flag: bool, value: i64, bits: u64)
    ensures
        bool::holds(mem, ptr, flag) ==> bool::read_at(mem, ptr) == Ok::<bool, Fault>(flag),
        i64::holds(mem, ptr, value) ==> i64::read_at(mem, ptr) == Ok::<i64, Fault>(value),
        Double::holds(mem, ptr, bits) ==> Double::read_at(mem, ptr) == Ok::<u64, Fault>(bits),
{
}

/// Whether a property value is one that the foreign format can carry: no
/// map in it has a key twice, its counts fit the count field, and none of
/// its texts holds a NUL byte.
pub open spec fn carried(value: PropertyValueView) -> bool {
    &&& PropertyValue::unwritable(value) is None
    &&& match value {
        PropertyValueView::Node(v) => v.wf() && v.fits(),
        PropertyValueView::NodeArray(vs) => NodeView::Array(vs).wf() && NodeView::Array(vs).fits(),
        PropertyValueView::NodeMap(es) => NodeView::Dict(es).wf() && NodeView::Dict(es).fits(),
        _ => true,
    }
}

/// Round trip for property values: the shape that was written for a value
/// reads, in the format of the value, as that value.
pub proof fn lemma_round_trip_property(mem: Memory, ptr: Addr, value: PropertyValueView)
    requires
        PropertyValue::holds(mem, ptr, value),
        carried(value),
    ensures
        read_property(mem, PropertyValue::format_of(value).id(), ptr) == Ok::<
            PropertyValueView,
            Fault,
        >(value),
{
    match value {
        PropertyValueView::String(s) => {
            lemma_round_trip_text(mem, ptr, s);
        },
        PropertyValueView::OsdString(s) => {
            lemma_round_trip_text(mem, ptr, s);
        },
        PropertyValueView::Node(v) => {
            lemma_round_trip_node_at(mem, ptr, usize::MAX, v);
        },
        PropertyValueView::NodeArray(vs) => {
            lemma_round_trip_list(mem, ptr, usize::MAX, vs);
        },
        PropertyValueView::NodeMap(es) => {
            lemma_round_trip_map(mem, ptr, usize::MAX, es);
        },
        PropertyValueView::ByteArray(bs) => {
            lemma_holds_bytes_reads(mem, ptr, usize::MAX, bs);
        },
        _ => {},
    }
}

/// Values that can each be written can be written one after the other.
pub proof fn lemma_all_writable_nodes(values: Seq<NodeView>, count: nat)
    requires
        count <= values.len(),
        forall|i: int| 0 <= i < count ==> unwritable_node(#[trigger] values[i]) is None,
    ensures
        unwritable_nodes(values, count) is None,
    decreases count,
{
    if count > 0 {
        lemma_all_writable_nodes(values, (count - 1) as nat);
    }
}

/// Entries whose keys and values can each be written can be written one
/// after the other.
pub proof fn lemma_all_writable_entries(entries: Entries, count: nat)
    requires
        count <= entries.len(),
        forall|i: int|
            0 <= i < count ==> writable((#[trigger] entries[i]).0) && unwritable_node(
                entries[i].1,
            ) is None,
    ensures
        unwritable_entries(entries, count) is None,
    decreases count,
{
    if count > 0 {
        lemma_all_writable_entries(entries, (count - 1) as nat);
    }
}

/// Every entry that comes of inserting keys with their values is one of the
/// keys with its value, and there are no more entries than keys.
pub proof fn lemma_zip_members(keys: Seq<Seq<char>>, values: Seq<NodeView>, count: nat)
    ensures
        zip_entries(keys, values, count).len() <= count,
        forall|i: int|
            0 <= i < zip_entries(keys, values, count).len() ==> exists|j: int|
                0 <= j < count && #[trigger] zip_entries(keys, values, count)[i] == (
                    keys[j],
                    values[j],
                ),
    decreases count,
{
    if count > 0 {
        let before = zip_entries(keys, values, (count - 1) as nat);
        let after = zip_entries(keys, values, count);
        lemma_zip_members(keys, values, (count - 1) as nat);
        crate::types::node_map::lemma_key_from(before, keys[count - 1], 0);
        assert forall|i: int| 0 <= i < after.len() implies exists|j: int|
            0 <= j < count && #[trigger] after[i] == (keys[j], values[j]) by {
            if i < before.len() && after[i] == before[i] {
                let j = choose|j: int| 0 <= j < count - 1 && before[i] == (keys[j], values[j]);
                assert(after[i] == (keys[j], values[j]));
            } else {
                assert(after[i] == (keys[count - 1], values[count - 1]));
            }
        }
    }
}

/// Whether a value is one that the foreign format can carry: no map in it
/// has a key twice, its counts fit the count field, and none of its texts
/// holds a NUL byte.
pub open spec fn carried_node(value: NodeView) -> bool {
    value.wf() && value.fits() && unwritable_node(value) is None
}

/// What is read can be carried: a value that was read out of foreign memory
/// is one that can be written back and is then read again as itself.
pub proof fn lemma_read_node_carried(mem: Memory, node: RawNode, limit: Addr)
    ensures
        read_node(mem, node, limit) matches Ok(value) ==> carried_node(value),
    decreases limit, 2nat,
{
    if read_node(mem, node, limit) is Ok {
        if node.format == crate::raw::MPV_FORMAT_STRING {
            let buffer = mem.bytes_at(word_addr(node.u), limit)->Some_0;
            crate::text::lemma_text_of_writable(buffer);
        } else if node.format == crate::raw::MPV_FORMAT_NODE_ARRAY {
            let ptr = word_addr(node.u);
            let list = mem.list_at(ptr, limit)->Some_0;
            let nodes = mem.nodes_at(list.values, (ptr - 1) as usize)->Some_0;
            lemma_read_nodes_carried(mem, nodes, list.num as nat, (list.values - 1) as usize);
            let values = read_list(mem, ptr, limit)->Ok_0;
            lemma_all_writable_nodes(values, values.len());
        } else if node.format == crate::raw::MPV_FORMAT_NODE_MAP {
            let ptr = word_addr(node.u);
            let list = mem.list_at(ptr, limit)->Some_0;
            let nodes = mem.nodes_at(list.values, (ptr - 1) as usize)->Some_0;
            let keys = mem.pointers_at(list.keys, (ptr - 1) as usize)->Some_0;
            let count = list.num as nat;
            let key_limit = (list.keys - 1) as usize;
            lemma_read_nodes_carried(mem, nodes, count, (list.values - 1) as usize);
            lemma_read_keys_writable(mem, keys, count, key_limit);
            let values = read_nodes(mem, nodes, count, (list.values - 1) as usize)->Ok_0;
            let texts = read_keys(mem, keys, count, key_limit)->Ok_0;
            let entries = zip_entries(texts, values, count);
            lemma_zip_members(texts, values, count);
            crate::types::node_map::lemma_zip_distinct(texts, values, count);
            assert forall|i: int| 0 <= i < entries.len() implies writable(
                (#[trigger] entries[i]).0,
            ) && carried_node(entries[i].1) by {
                let j = choose|j: int| 0 <= j < count && entries[i] == (texts[j], values[j]);
                assert(carried_node(values[j]));
                assert(writable(texts[j]));
            }
            lemma_all_writable_entries(entries, entries.len());
        }
    }
}

/// What is read can be carried, for the nodes of a contiguous array.
pub proof fn lemma_read_nodes_carried(mem: Memory, nodes: Seq<RawNode>, count: nat, limit: Addr)
    ensures
        read_nodes(mem, nodes, count, limit) matches Ok(values) ==> values.len() == count
            && forall|i: int| 0 <= i < count ==> carried_node(#[trigger] values[i]),
    decreases limit, count + 3,
{
    if count > 0 && read_nodes(mem, nodes, count, limit) is Ok {
        lemma_read_nodes_carried(mem, nodes, (count - 1) as nat, limit);
        lemma_read_node_carried(mem, nodes[count - 1], limit);
    }
}

/// Keys that were read can be written.
pub proof fn lemma_read_keys_writable(mem: Memory, keys: Seq<Addr>, count: nat, limit: Addr)
    ensures
        read_keys(mem, keys, count, limit) matches Ok(texts) ==> texts.len() == count
            && forall|i: int| 0 <= i < count ==> writable(#[trigger] texts[i]),
    decreases count,
{
    if count > 0 && read_keys(mem, keys, count, limit) is Ok {
        lemma_read_keys_writable(mem, keys, (count - 1) as nat, limit);
        let buffer = mem.bytes_at(keys[count - 1], limit)->Some_0;
        crate::text::lemma_text_of_writable(buffer);
    }
}

} // verus!
