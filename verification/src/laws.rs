//! The laws of the slot protocol, stated and proved once.
//!
//! Each law speaks of the specification functions the accessors' contracts
//! are written in, so it covers every call of those accessors: writes and
//! typed reads round-trip exactly, a tag mismatch always reads as absent,
//! staged end-of-list insertions build a list in order, an out-of-bounds
//! insertion is refused, and every list operation on a non-list target fails
//! without reaching the runtime.

use vstd::prelude::*;
use vstd::utf8::decode_utf8;
use vstd::utf8::encode_utf8;
use vstd::utf8::encode_utf8_decode_utf8;
use vstd::utf8::encode_utf8_valid_utf8;

use crate::types::WrenType;
use crate::value::Val;
use crate::vm::lemma_stored;
use crate::vm::list_count;
use crate::vm::list_get_ok;
use crate::vm::list_insert_ok;
use crate::vm::list_inserted;
use crate::vm::max_count;
use crate::vm::read_bool;
use crate::vm::read_bytes;
use crate::vm::read_foreign;
use crate::vm::read_num;
use crate::vm::read_string;
use crate::vm::slot_tag;
use crate::vm::stored;
use crate::vm::valid_slot;
use crate::vm::VmState;
use crate::vm::writable_slot;

verus! {

/// Round trip: a write to any addressable slot leaves exactly the written
/// value there, to be found by whatever read follows.
pub proof fn lemma_slot_round_trip(slots: Seq<Val>, slot: int, v: Val)
    requires
        writable_slot(slot),
    ensures
        valid_slot(stored(slots, slot, v), slot),
        stored(slots, slot, v)[slot] == v,
        slot_tag(stored(slots, slot, v), slot) == v.tag(),
{
    lemma_stored(slots, slot, v);
}

/// Round trip through each typed accessor: writing a value of tag `T` and
/// reading with the accessor for `T` returns exactly that value.
pub proof fn lemma_typed_round_trip(slots: Seq<Val>, slot: int, b: bool, bits: u64, id: usize)
    requires
        writable_slot(slot),
    ensures
        read_bool(stored(slots, slot, Val::Bool(b)), slot) == Some(b),
        read_num(stored(slots, slot, Val::Num(bits)), slot) == Some(bits),
        read_foreign(stored(slots, slot, Val::Foreign(id)), slot) == Some(id),
{
    lemma_slot_round_trip(slots, slot, Val::Bool(b));
    lemma_slot_round_trip(slots, slot, Val::Num(bits));
    lemma_slot_round_trip(slots, slot, Val::Foreign(id));
}

/// Round trip for byte strings.
pub proof fn lemma_bytes_round_trip(slots: Seq<Val>, slot: int, bytes: Seq<u8>)
    requires
        writable_slot(slot),
    ensures
        read_bytes(stored(slots, slot, Val::Str(bytes)), slot) == Some(bytes),
{
    lemma_slot_round_trip(slots, slot, Val::Str(bytes));
}

/// Round trip for text: writing a string stores its UTF-8 bytes, and the
/// text read decodes them back to exactly the characters written.
pub proof fn lemma_string_round_trip(slots: Seq<Val>, slot: int, text: Seq<char>)
    requires
        writable_slot(slot),
    ensures
        read_string(stored(slots, slot, Val::Str(encode_utf8(text))), slot) == Some(text),
{
    lemma_slot_round_trip(slots, slot, Val::Str(encode_utf8(text)));
    encode_utf8_valid_utf8(text);
    encode_utf8_decode_utf8(text);
}

/// Tag safety: a typed read yields a value exactly when the slot's tag
/// matches the accessor, and then it is the slot's value itself — a slot of
/// any other tag always reads as absent, never as a reinterpreted value.
pub proof fn lemma_tag_safety(slots: Seq<Val>, slot: int)
    ensures
        (read_bool(slots, slot) is Some) <==> slot_tag(slots, slot) == WrenType::Bool,
        (read_num(slots, slot) is Some) <==> slot_tag(slots, slot) == WrenType::Num,
        (read_bytes(slots, slot) is Some) <==> slot_tag(slots, slot) == WrenType::String,
        (read_foreign(slots, slot) is Some) <==> slot_tag(slots, slot) == WrenType::Foreign,
        (read_string(slots, slot) is Some) ==> slot_tag(slots, slot) == WrenType::String,
        read_bool(slots, slot) matches Some(b) ==> slots[slot] == Val::Bool(b),
        read_num(slots, slot) matches Some(bits) ==> slots[slot] == Val::Num(bits),
        read_bytes(slots, slot) matches Some(bytes) ==> slots[slot] == Val::Str(bytes),
        read_foreign(slots, slot) matches Some(id) ==> slots[slot] == Val::Foreign(id),
{
}

/// A handle is released exactly once: releasing it vacates its table entry,
/// after which the same handle no longer meets the release contract — so a
/// double release is ruled out wherever these contracts are enforced.
pub proof fn lemma_release_once(s: VmState, id: int)
    requires
        s.handle_live(id),
    ensures
        !(VmState { handles: s.handles.update(id, None), ..s }).handle_live(id),
{
}

/// The register file grows monotonically: no write ever shrinks it, and a
/// list insertion leaves its size untouched.
pub proof fn lemma_capacity_monotonic(
    slots: Seq<Val>,
    slot: int,
    v: Val,
    list_slot: int,
    index: int,
    element_slot: int,
)
    requires
        writable_slot(slot),
        valid_slot(slots, list_slot),
    ensures
        stored(slots, slot, v).len() >= slots.len(),
        list_inserted(slots, list_slot, index, element_slot).len() == slots.len(),
{
    crate::vm::lemma_grown(slots, slot + 1);
}

/// One staged append: the value is written to `element_slot`, then inserted
/// at the end of the list in `list_slot`.
pub open spec fn staged_append(slots: Seq<Val>, list_slot: int, element_slot: int, v: Val) -> Seq<
    Val,
> {
    let mid = stored(slots, element_slot, v);
    list_inserted(mid, list_slot, list_count(mid, list_slot), element_slot)
}

/// Whether that staged append passes the insertion checks.
pub open spec fn staged_append_ok(
    slots: Seq<Val>,
    list_slot: int,
    element_slot: int,
    v: Val,
) -> bool {
    let mid = stored(slots, element_slot, v);
    list_insert_ok(mid, list_slot, list_count(mid, list_slot), element_slot)
}

/// The register file after appending each value of `vs` in turn.
pub open spec fn appended_all(
    slots: Seq<Val>,
    list_slot: int,
    element_slot: int,
    vs: Seq<Val>,
) -> Seq<Val>
    decreases vs.len(),
{
    if vs.len() == 0 {
        slots
    } else {
        appended_all(
            staged_append(slots, list_slot, element_slot, vs[0]),
            list_slot,
            element_slot,
            vs.subrange(1, vs.len() as int),
        )
    }
}

/// Whether every one of those appends passes the insertion checks.
pub open spec fn all_appends_ok(
    slots: Seq<Val>,
    list_slot: int,
    element_slot: int,
    vs: Seq<Val>,
) -> bool
    decreases vs.len(),
{
    vs.len() == 0 || (staged_append_ok(slots, list_slot, element_slot, vs[0]) && all_appends_ok(
        staged_append(slots, list_slot, element_slot, vs[0]),
        list_slot,
        element_slot,
        vs.subrange(1, vs.len() as int),
    ))
}

/// List append: staging each of `vs` in turn and inserting it at the
/// end-of-list index succeeds at every step and leaves the list holding its
/// old elements followed by exactly `vs`, in insertion order.  From an empty
/// list, appending `N` values yields a list of length `N` in order.
pub proof fn lemma_list_append(slots: Seq<Val>, list_slot: int, element_slot: int, vs: Seq<Val>)
    requires
        0 <= list_slot < slots.len(),
        writable_slot(element_slot),
        list_slot != element_slot,
        slots[list_slot] matches Val::List(items) && items.len() + vs.len() <= max_count(),
    ensures
        all_appends_ok(slots, list_slot, element_slot, vs),
        valid_slot(appended_all(slots, list_slot, element_slot, vs), list_slot),
        appended_all(slots, list_slot, element_slot, vs)[list_slot] == Val::List(
            slots[list_slot]->List_0 + vs,
        ),
    decreases vs.len(),
{
    let items = slots[list_slot]->List_0;
    if vs.len() == 0 {
        assert(items + vs =~= items);
    } else {
        let v = vs[0];
        let mid = stored(slots, element_slot, v);
        lemma_stored(slots, element_slot, v);
        assert(mid[list_slot] == slots[list_slot]);
        assert(valid_slot(mid, element_slot));
        let count = list_count(mid, list_slot);
        assert(count == items.len());
        assert(list_insert_ok(mid, list_slot, count, element_slot));
        let next = list_inserted(mid, list_slot, count, element_slot);
        assert(items.insert(items.len() as int, v) =~= items.push(v));
        assert(next[list_slot] == Val::List(items.push(v)));
        lemma_list_append(next, list_slot, element_slot, vs.subrange(1, vs.len() as int));
        assert(items.push(v) + vs.subrange(1, vs.len() as int) =~= items + vs);
    }
}

/// List bounds: inserting at an index strictly greater than the current
/// element count is refused, so the failing call leaves every slot as it
/// was.
pub proof fn lemma_list_insert_bounds(slots: Seq<Val>, list_slot: int, index: int, element_slot: int)
    requires
        index > list_count(slots, list_slot),
    ensures
        !list_insert_ok(slots, list_slot, index, element_slot),
{
}

/// Non-list target: every list operation on a slot that holds anything but
/// a list fails — the count reads as zero, no element can be fetched, and no
/// insertion passes the checks — without mutating the target.
pub proof fn lemma_non_list_target(slots: Seq<Val>, list_slot: int, index: int, element_slot: int)
    requires
        !(slots[list_slot] is List),
    ensures
        !list_insert_ok(slots, list_slot, index, element_slot),
        list_count(slots, list_slot) == 0,
        !list_get_ok(slots, list_slot, index),
{
}

} // verus!
