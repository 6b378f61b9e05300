//! The virtual machine wrapper and the slot-based value exchange protocol.
//!
//! `WrenVM` models everything of a runtime instance the host can observe
//! through the C interface: the slot register file, the table of persistent
//! handles, the foreign allocations, the staged fiber error, the user-data
//! word and the configuration the instance was created from.  `VM` wraps an
//! instance together with its provenance: a host-created wrapper owns its
//! runtime and tears it down exactly once, a wrapper reconstructed inside a
//! callback never does.
//!
//! Every accessor validates its indices before touching the register file and
//! checks type tags before reading a value, so host misuse surfaces as an
//! absent or false result instead of corrupting the runtime.

use vstd::prelude::*;
use vstd::utf8::decode_utf8;
use vstd::utf8::encode_utf8;
use vstd::utf8::valid_utf8;

use crate::config::Configuration;
use crate::text::string_from_utf8;
use crate::value::lemma_vals_index;
use crate::value::lemma_vals_len;
use crate::value::lemma_vals_update;
use crate::types::WrenType;
use crate::value::SlotValue;
use crate::value::Val;

verus! {

broadcast use crate::value::group_vals;

/// The largest count the runtime's signed 32-bit interface can report.
pub open spec fn max_count() -> int {
    0x7fff_ffff
}

/// Whether `slot` is a readable index of the register file.
pub open spec fn valid_slot(slots: Seq<Val>, slot: int) -> bool {
    0 <= slot < slots.len()
}

/// Whether a write may address `slot`: the index and the grown size must
/// both fit the runtime's signed 32-bit counts.
pub open spec fn writable_slot(slot: int) -> bool {
    0 <= slot < max_count()
}

/// The register file grown to hold at least `n` slots; new slots are null.
pub open spec fn grown(slots: Seq<Val>, n: int) -> Seq<Val> {
    if slots.len() >= n {
        slots
    } else {
        slots + Seq::new((n - slots.len()) as nat, |i: int| Val::Null)
    }
}

/// The register file after a write of `v` at `slot`: it first grows to make
/// the index addressable, then replaces the value there.
pub open spec fn stored(slots: Seq<Val>, slot: int, v: Val) -> Seq<Val> {
    grown(slots, slot + 1).update(slot, v)
}

/// The type tag reported for `slot`: null for an index out of range.
pub open spec fn slot_tag(slots: Seq<Val>, slot: int) -> WrenType {
    if valid_slot(slots, slot) {
        slots[slot].tag()
    } else {
        WrenType::Null
    }
}

/// What a typed boolean read yields: the value only on a tag match.
pub open spec fn read_bool(slots: Seq<Val>, slot: int) -> Option<bool> {
    if valid_slot(slots, slot) {
        match slots[slot] {
            Val::Bool(b) => Some(b),
            _ => None,
        }
    } else {
        None
    }
}

/// What a typed number read yields, as the double's bit pattern.
pub open spec fn read_num(slots: Seq<Val>, slot: int) -> Option<u64> {
    if valid_slot(slots, slot) {
        match slots[slot] {
            Val::Num(bits) => Some(bits),
            _ => None,
        }
    } else {
        None
    }
}

/// What a typed byte read yields.
pub open spec fn read_bytes(slots: Seq<Val>, slot: int) -> Option<Seq<u8>> {
    if valid_slot(slots, slot) {
        match slots[slot] {
            Val::Str(bytes) => Some(bytes),
            _ => None,
        }
    } else {
        None
    }
}

/// What a typed text read yields: the decoded characters, provided the slot
/// holds a string and its bytes are well-formed text.
pub open spec fn read_string(slots: Seq<Val>, slot: int) -> Option<Seq<char>> {
    if valid_slot(slots, slot) {
        match slots[slot] {
            Val::Str(bytes) => if valid_utf8(bytes) {
                Some(decode_utf8(bytes))
            } else {
                None
            },
            _ => None,
        }
    } else {
        None
    }
}

/// What a typed foreign read yields.
pub open spec fn read_foreign(slots: Seq<Val>, slot: int) -> Option<usize> {
    if valid_slot(slots, slot) {
        match slots[slot] {
            Val::Foreign(id) => Some(id),
            _ => None,
        }
    } else {
        None
    }
}

/// The element count a list read reports: zero for anything but a list.
pub open spec fn list_count(slots: Seq<Val>, slot: int) -> int {
    if valid_slot(slots, slot) {
        match slots[slot] {
            Val::List(items) => items.len() as int,
            _ => 0,
        }
    } else {
        0
    }
}

/// How growing reshapes the register file: old slots stay, new slots are null.
pub proof fn lemma_grown(slots: Seq<Val>, n: int)
    ensures
        grown(slots, n).len() == if slots.len() >= n {
            slots.len() as int
        } else {
            n
        },
        forall|i: int| 0 <= i < slots.len() ==> #[trigger] grown(slots, n)[i] == slots[i],
        forall|i: int|
            slots.len() <= i < grown(slots, n).len() ==> #[trigger] grown(slots, n)[i]
                == Val::Null,
{
}

/// How a write reshapes the register file: the addressed slot holds the new
/// value, older slots keep theirs, and any slot the growth uncovered is null.
pub proof fn lemma_stored(slots: Seq<Val>, slot: int, v: Val)
    requires
        writable_slot(slot),
    ensures
        stored(slots, slot, v).len() == if slots.len() >= slot + 1 {
            slots.len() as int
        } else {
            slot + 1
        },
        stored(slots, slot, v)[slot] == v,
        forall|i: int|
            0 <= i < slots.len() && i != slot ==> #[trigger] stored(slots, slot, v)[i]
                == slots[i],
        forall|i: int|
            slots.len() <= i < stored(slots, slot, v).len() && i != slot
                ==> #[trigger] stored(slots, slot, v)[i] == Val::Null,
{
    lemma_grown(slots, slot + 1);
}

/// Appends null values until the register file holds at least `n` slots.
fn grow_vec(slots: &mut Vec<SlotValue>, n: usize)
    ensures
        SlotValue::vals(final(slots)@) == grown(SlotValue::vals(old(slots)@), n as int),
{
    let ghost s0 = old(slots)@;
    while slots.len() < n
        invariant
            s0.len() <= slots@.len(),
            slots@.len() <= n as int || slots@.len() == s0.len(),
            slots@ == s0 + Seq::new((slots@.len() - s0.len()) as nat, |i: int| SlotValue::Null),
        decreases n - slots@.len(),
    {
        slots.push(SlotValue::Null);
        proof {
            assert(slots@ =~= s0 + Seq::new(
                (slots@.len() - s0.len()) as nat,
                |i: int| SlotValue::Null,
            ));
        }
    }
    proof {
        let v0 = SlotValue::vals(s0);
        let vf = SlotValue::vals(slots@);
        lemma_vals_len(s0);
        lemma_vals_len(slots@);
        lemma_grown(v0, n as int);
        assert forall|i: int| 0 <= i < vf.len() implies vf[i] == grown(v0, n as int)[i] by {
            lemma_vals_index(slots@, i);
            if i < s0.len() {
                lemma_vals_index(s0, i);
                assert(slots@[i] == s0[i]);
            } else {
                assert(slots@[i] == SlotValue::Null);
            }
        }
        assert(vf =~= grown(v0, n as int));
    }
}

/// Whether a list read may fetch `index` from `list_slot`.
pub open spec fn list_get_ok(slots: Seq<Val>, list_slot: int, index: int) -> bool {
    valid_slot(slots, list_slot) && (slots[list_slot] matches Val::List(items) && 0 <= index
        < items.len())
}

/// The list element such a read fetches.
pub open spec fn list_elem(slots: Seq<Val>, list_slot: int, index: int) -> Val {
    match slots[list_slot] {
        Val::List(items) => items[index],
        _ => Val::Null,
    }
}

/// Where an insertion lands: a non-negative index stands for itself, a
/// negative one counts back from the end, `-1` meaning append.
pub open spec fn insert_pos(count: int, index: int) -> int {
    if index >= 0 {
        index
    } else {
        count + 1 + index
    }
}

/// Whether an insertion is allowed: both slots must be populated, the target
/// must hold a list with room for one more element, and the insertion point
/// must lie between the start and the end of the list, both inclusive.
pub open spec fn list_insert_ok(
    slots: Seq<Val>,
    list_slot: int,
    index: int,
    element_slot: int,
) -> bool {
    &&& valid_slot(slots, list_slot)
    &&& valid_slot(slots, element_slot)
    &&& (slots[list_slot] matches Val::List(items) && items.len() < max_count() && 0
        <= insert_pos(items.len() as int, index) <= items.len())
}

/// The register file after an allowed insertion.
pub open spec fn list_inserted(
    slots: Seq<Val>,
    list_slot: int,
    index: int,
    element_slot: int,
) -> Seq<Val> {
    match slots[list_slot] {
        Val::List(items) => slots.update(
            list_slot,
            Val::List(items.insert(insert_pos(items.len() as int, index), slots[element_slot])),
        ),
        _ => slots,
    }
}

/// The host-visible state of one runtime instance.
#[verifier::ext_equal]
pub struct VmState {
    /// The slot register file.
    pub slots: Seq<Val>,
    /// The handle table: a released handle leaves a vacant entry behind.
    pub handles: Seq<Option<Val>>,
    /// The storage sizes of the foreign objects created so far.
    pub foreigns: Seq<usize>,
    /// The staged fiber error, if an abort has been requested.
    pub fiber_error: Option<Val>,
    /// The opaque word threaded through every callback.
    pub user_data: usize,
    /// The configuration the instance was created from.
    pub config: Configuration,
}

impl VmState {
    /// The state of a freshly created instance.
    pub open spec fn initial(cfg: Configuration) -> VmState {
        VmState {
            slots: Seq::empty(),
            handles: Seq::empty(),
            foreigns: Seq::empty(),
            fiber_error: None,
            user_data: cfg.user_data,
            config: cfg,
        }
    }

    /// Every count the interface reports fits its signed 32-bit carrier.
    pub open spec fn wf(self) -> bool {
        &&& self.slots.len() <= max_count()
        &&& (forall|i: int| 0 <= i < self.slots.len() ==> (#[trigger] self.slots[i]).wf())
        &&& (forall|j: int|
            0 <= j < self.handles.len() ==> ((#[trigger] self.handles[j]) matches Some(v)
                ==> v.wf()))
        &&& (self.fiber_error matches Some(v) ==> v.wf())
    }

    /// Whether `id` names a handle that has been created and not released.
    pub open spec fn handle_live(self, id: int) -> bool {
        0 <= id < self.handles.len() && self.handles[id] is Some
    }

    /// The value a live handle refers to.
    pub open spec fn handle_val(self, id: int) -> Val {
        match self.handles[id] {
            Some(v) => v,
            None => Val::Null,
        }
    }
}

/// A runtime-resident handle object: it keeps one value reachable for as
/// long as the handle is live.  A handle made from a call signature refers
/// to a compiled method object, which the host interface cannot read.
pub struct WrenHandle {
    value: SlotValue,
    signature: Option<Vec<u8>>,
}

impl View for WrenHandle {
    type V = Val;

    closed spec fn view(&self) -> Val {
        self.value@
    }
}

/// The host-side name of a runtime-resident handle.  Copying it copies the
/// name, not the handle: all copies alias one table entry, and releasing the
/// entry invalidates every copy at once.
#[derive(Copy, Clone)]
pub struct Handle {
    id: usize,
}

impl Handle {
    /// The table entry this handle names.
    pub closed spec fn id(self) -> int {
        self.id as int
    }
}

/// The values the entries of a handle table refer to.
spec fn handles_view(hs: Seq<Option<WrenHandle>>) -> Seq<Option<Val>> {
    Seq::new(
        hs.len(),
        |i: int|
            match hs[i] {
                Some(h) => Some(h@),
                None => None,
            },
    )
}

/// One runtime instance, as the host can observe it.
pub struct WrenVM {
    slots: Vec<SlotValue>,
    handles: Vec<Option<WrenHandle>>,
    foreigns: Vec<usize>,
    fiber_error: Option<SlotValue>,
    user_data: usize,
    config: Configuration,
}

impl View for WrenVM {
    type V = VmState;

    closed spec fn view(&self) -> VmState {
        VmState {
            slots: SlotValue::vals(self.slots@),
            handles: handles_view(self.handles@),
            foreigns: self.foreigns@,
            fiber_error: match self.fiber_error {
                Some(v) => Some(v@),
                None => None,
            },
            user_data: self.user_data,
            config: self.config,
        }
    }
}

impl WrenVM {
    /// Creates a fresh runtime instance from a configuration.
    pub fn new(cfg: Configuration) -> (raw: WrenVM)
        ensures
            raw@ == VmState::initial(cfg),
            raw@.wf(),
    {
        let raw = WrenVM {
            slots: Vec::new(),
            handles: Vec::new(),
            foreigns: Vec::new(),
            fiber_error: None,
            user_data: cfg.user_data,
            config: cfg,
        };
        proof {
            assert(raw@ =~= VmState::initial(cfg));
        }
        raw
    }
}

/// A wrapper around one runtime instance, tagged with its provenance.
pub struct VM {
    state: WrenVM,
    owned: bool,
}

impl View for VM {
    type V = VmState;

    closed spec fn view(&self) -> VmState {
        self.state@
    }
}

impl VM {
    /// Whether this wrapper owns its runtime and must tear it down.
    pub closed spec fn owned(&self) -> bool {
        self.owned
    }

    /// Shorthand for the well-formedness of the observable state.
    pub open spec fn wf(&self) -> bool {
        self@.wf()
    }

    /// Creates an owned VM.  Its runtime is torn down exactly once, by
    /// `teardown`, and by nothing else.
    pub fn new(cfg: Configuration) -> (vm: VM)
        ensures
            vm@ == VmState::initial(cfg),
            vm.owned(),
            vm.wf(),
    {
        VM { state: WrenVM::new(cfg), owned: true }
    }

    /// Wraps a runtime instance that something else owns — the constructor
    /// every callback uses on the pointer the runtime hands it.  A borrowed
    /// wrapper never tears the runtime down.
    pub fn from_ptr(raw: WrenVM) -> (vm: VM)
        ensures
            vm@ == raw@,
            !vm.owned(),
    {
        VM { state: raw, owned: false }
    }

    /// Ends this wrapper's life and returns whether it freed its runtime:
    /// an owned wrapper does, exactly once — the wrapper is consumed, so no
    /// second teardown can ever run — and a borrowed wrapper never does.
    pub fn teardown(self) -> (freed: bool)
        ensures
            freed == self.owned(),
    {
        self.owned
    }

    /// Forces a garbage-collection pass.  Collection is invisible in the
    /// host-observable state: live slots and handles keep values reachable.
    pub fn collect_garbage(&mut self)
        ensures
            *final(self) == *old(self),
    {
    }

    /// The number of slots currently addressable.
    pub fn get_slot_count(&self) -> (n: i32)
        requires
            self.wf(),
        ensures
            n as int == self@.slots.len(),
    {
        proof {
            assert(self@.slots.len() == self.state.slots@.len());
        }
        self.state.slots.len() as i32
    }

    /// The opaque user-data word.
    pub fn get_user_data(&self) -> (data: usize)
        ensures
            data == self@.user_data,
    {
        self.state.user_data
    }

    /// Grows the register file so that `slot` is addressable, then replaces
    /// the value there.  A slot the runtime's counts cannot address is left
    /// untouched: misuse must never reach the runtime.
    fn put(&mut self, slot: i32, v: SlotValue)
        requires
            old(self).wf(),
            v@.wf(),
        ensures
            final(self).wf(),
            final(self).owned() == old(self).owned(),
            writable_slot(slot as int) ==> final(self)@ == (VmState {
                slots: stored(old(self)@.slots, slot as int, v@),
                ..old(self)@
            }),
            !writable_slot(slot as int) ==> *final(self) == *old(self),
    {
        if 0 <= slot && slot < 0x7fff_ffff {
            let ghost slots0 = self@.slots;
            let n: usize = (slot + 1) as usize;
            grow_vec(&mut self.state.slots, n);
            let ghost gvec = self.state.slots@;
            let idx: usize = slot as usize;
            proof {
                lemma_vals_len(gvec);
                lemma_grown(slots0, slot as int + 1);
            }
            self.state.slots[idx] = v;
            proof {
                lemma_vals_update(gvec, slot as int, v);
                assert(self@.slots =~= stored(slots0, slot as int, v@));
                assert(self@ =~= (VmState {
                    slots: stored(slots0, slot as int, v@),
                    ..old(self)@
                }));
                lemma_stored(slots0, slot as int, v@);
                assert forall|i: int| 0 <= i < self@.slots.len() implies (
                #[trigger] self@.slots[i]).wf() by {
                    if i != slot as int && i < slots0.len() {
                        assert(old(self).wf());
                    }
                }
            }
        }
    }

    /// The type tag of `slot`: null for an index out of range, so a read
    /// never has to probe the runtime blindly.
    pub fn get_slot_type(&self, slot: i32) -> (t: WrenType)
        ensures
            t == slot_tag(self@.slots, slot as int),
    {
        if slot >= 0 && (slot as usize) < self.state.slots.len() {
            proof {
                lemma_vals_index(self.state.slots@, slot as int);
            }
            self.state.slots[slot as usize].tag()
        } else {
            WrenType::Null
        }
    }

    /// The boolean in `slot`, or absent on any type mismatch or bad index.
    pub fn get_slot_bool(&self, slot: i32) -> (r: Option<bool>)
        ensures
            r == read_bool(self@.slots, slot as int),
    {
        if slot >= 0 && (slot as usize) < self.state.slots.len() {
            proof {
                lemma_vals_index(self.state.slots@, slot as int);
            }
            match &self.state.slots[slot as usize] {
                SlotValue::Bool(b) => Some(*b),
                _ => None,
            }
        } else {
            None
        }
    }

    /// The number in `slot` as its double's bit pattern, or absent on any
    /// type mismatch or bad index.
    pub fn get_slot_double(&self, slot: i32) -> (r: Option<u64>)
        ensures
            r == read_num(self@.slots, slot as int),
    {
        if slot >= 0 && (slot as usize) < self.state.slots.len() {
            proof {
                lemma_vals_index(self.state.slots@, slot as int);
            }
            match &self.state.slots[slot as usize] {
                SlotValue::Num(bits) => Some(*bits),
                _ => None,
            }
        } else {
            None
        }
    }

    /// A copy of the bytes in `slot`, or absent on any type mismatch or bad
    /// index.
    pub fn get_slot_bytes(&self, slot: i32) -> (r: Option<Vec<u8>>)
        ensures
            (r is Some) == (read_bytes(self@.slots, slot as int) is Some),
            r matches Some(b) ==> read_bytes(self@.slots, slot as int) == Some(b@),
    {
        if slot >= 0 && (slot as usize) < self.state.slots.len() {
            proof {
                lemma_vals_index(self.state.slots@, slot as int);
            }
            match &self.state.slots[slot as usize] {
                SlotValue::Str(bytes) => Some(vstd::slice::slice_to_vec(bytes.as_slice())),
                _ => None,
            }
        } else {
            None
        }
    }

    /// The text in `slot`, decoded from the runtime's bytes.  Absent on a
    /// type mismatch, a bad index, or bytes that are not well-formed text.
    pub fn get_slot_string(&self, slot: i32) -> (r: Option<String>)
        ensures
            (r is Some) == (read_string(self@.slots, slot as int) is Some),
            r matches Some(s) ==> read_string(self@.slots, slot as int) == Some(s@),
    {
        if slot >= 0 && (slot as usize) < self.state.slots.len() {
            proof {
                lemma_vals_index(self.state.slots@, slot as int);
            }
            match &self.state.slots[slot as usize] {
                SlotValue::Str(bytes) => string_from_utf8(
                    vstd::slice::slice_to_vec(bytes.as_slice()),
                ),
                _ => None,
            }
        } else {
            None
        }
    }

    /// The foreign reference in `slot`, or absent on any type mismatch or
    /// bad index.
    pub fn get_slot_foreign(&self, slot: i32) -> (r: Option<usize>)
        ensures
            r == read_foreign(self@.slots, slot as int),
    {
        if slot >= 0 && (slot as usize) < self.state.slots.len() {
            proof {
                lemma_vals_index(self.state.slots@, slot as int);
            }
            match &self.state.slots[slot as usize] {
                SlotValue::Foreign(id) => Some(*id),
                _ => None,
            }
        } else {
            None
        }
    }

    /// Writes a boolean into `slot`, growing the register file first.
    pub fn set_slot_bool(&mut self, slot: i32, value: bool)
        requires
            old(self).wf(),
        ensures
            final(self).wf(),
            final(self).owned() == old(self).owned(),
            writable_slot(slot as int) ==> final(self)@ == (VmState {
                slots: stored(old(self)@.slots, slot as int, Val::Bool(value)),
                ..old(self)@
            }),
            !writable_slot(slot as int) ==> *final(self) == *old(self),
    {
        self.put(slot, SlotValue::Bool(value));
    }

    /// Writes a number into `slot`, given as its double's bit pattern.
    pub fn set_slot_double(&mut self, slot: i32, bits: u64)
        requires
            old(self).wf(),
        ensures
            final(self).wf(),
            final(self).owned() == old(self).owned(),
            writable_slot(slot as int) ==> final(self)@ == (VmState {
                slots: stored(old(self)@.slots, slot as int, Val::Num(bits)),
                ..old(self)@
            }),
            !writable_slot(slot as int) ==> *final(self) == *old(self),
    {
        self.put(slot, SlotValue::Num(bits));
    }

    /// Writes a byte string into `slot`.
    pub fn set_slot_bytes(&mut self, slot: i32, bytes: &[u8])
        requires
            old(self).wf(),
        ensures
            final(self).wf(),
            final(self).owned() == old(self).owned(),
            writable_slot(slot as int) ==> final(self)@ == (VmState {
                slots: stored(old(self)@.slots, slot as int, Val::Str(bytes@)),
                ..old(self)@
            }),
            !writable_slot(slot as int) ==> *final(self) == *old(self),
    {
        self.put(slot, SlotValue::Str(vstd::slice::slice_to_vec(bytes)));
    }

    /// Writes text into `slot`; the runtime stores its UTF-8 bytes.
    pub fn set_slot_string(&mut self, slot: i32, s: &str)
        requires
            old(self).wf(),
        ensures
            final(self).wf(),
            final(self).owned() == old(self).owned(),
            writable_slot(slot as int) ==> final(self)@ == (VmState {
                slots: stored(old(self)@.slots, slot as int, Val::Str(encode_utf8(s@))),
                ..old(self)@
            }),
            !writable_slot(slot as int) ==> *final(self) == *old(self),
    {
        self.put(slot, SlotValue::Str(vstd::slice::slice_to_vec(s.as_bytes())));
    }

    /// Writes null into `slot`.
    pub fn set_slot_null(&mut self, slot: i32)
        requires
            old(self).wf(),
        ensures
            final(self).wf(),
            final(self).owned() == old(self).owned(),
            writable_slot(slot as int) ==> final(self)@ == (VmState {
                slots: stored(old(self)@.slots, slot as int, Val::Null),
                ..old(self)@
            }),
            !writable_slot(slot as int) ==> *final(self) == *old(self),
    {
        self.put(slot, SlotValue::Null);
    }

    /// Writes a fresh empty list into `slot`.
    pub fn set_slot_new_list(&mut self, slot: i32)
        requires
            old(self).wf(),
        ensures
            final(self).wf(),
            final(self).owned() == old(self).owned(),
            writable_slot(slot as int) ==> final(self)@ == (VmState {
                slots: stored(old(self)@.slots, slot as int, Val::List(Seq::empty())),
                ..old(self)@
            }),
            !writable_slot(slot as int) ==> *final(self) == *old(self),
    {
        let empty: Vec<SlotValue> = Vec::new();
        proof {
            assert(SlotValue::vals(empty@) =~= Seq::<Val>::empty());
        }
        self.put(slot, SlotValue::List(empty));
    }

    /// Promotes whatever `slot` currently holds into a persistent handle that
    /// survives slot reuse.  Absent only when `slot` is not populated.
    pub fn get_slot_handle(&mut self, slot: i32) -> (r: Option<Handle>)
        requires
            old(self).wf(),
        ensures
            final(self).wf(),
            final(self).owned() == old(self).owned(),
            (r is Some) == valid_slot(old(self)@.slots, slot as int),
            r matches Some(h) ==> h.id() == old(self)@.handles.len() && final(self)@ == (VmState {
                handles: old(self)@.handles.push(Some(old(self)@.slots[slot as int])),
                ..old(self)@
            }),
            r is None ==> *final(self) == *old(self),
    {
        if slot >= 0 && (slot as usize) < self.state.slots.len() {
            proof {
                lemma_vals_index(self.state.slots@, slot as int);
            }
            let id: usize = self.state.handles.len();
            let value = self.state.slots[slot as usize].clone();
            self.state.handles.push(Some(WrenHandle { value, signature: None }));
            proof {
                assert(self@.handles =~= old(self)@.handles.push(
                    Some(old(self)@.slots[slot as int]),
                ));
                assert(self@ =~= (VmState {
                    handles: old(self)@.handles.push(Some(old(self)@.slots[slot as int])),
                    ..old(self)@
                }));
                assert(old(self)@.slots[slot as int].wf());
                assert forall|j: int| 0 <= j < self@.handles.len() implies ((
                #[trigger] self@.handles[j]) matches Some(v) ==> v.wf()) by {
                    if j < old(self)@.handles.len() {
                        assert(old(self)@.handles[j] matches Some(v) ==> v.wf());
                    }
                }
            }
            Some(Handle { id })
        } else {
            None
        }
    }

    /// Compiles a call signature such as `"foo(_,_)"` into a handle — the
    /// only way to obtain a callable reference to a script method by name.
    /// The compiled method object itself is opaque to the host interface.
    pub fn make_call_handle(&mut self, signature: &str) -> (h: Handle)
        requires
            old(self).wf(),
        ensures
            final(self).wf(),
            final(self).owned() == old(self).owned(),
            h.id() == old(self)@.handles.len(),
            final(self)@ == (VmState {
                handles: old(self)@.handles.push(Some(Val::Unknown)),
                ..old(self)@
            }),
    {
        let id: usize = self.state.handles.len();
        let sig = vstd::slice::slice_to_vec(signature.as_bytes());
        self.state.handles.push(
            Some(WrenHandle { value: SlotValue::Unknown, signature: Some(sig) }),
        );
        proof {
            assert(self@.handles =~= old(self)@.handles.push(Some(Val::Unknown)));
            assert(self@ =~= (VmState {
                handles: old(self)@.handles.push(Some(Val::Unknown)),
                ..old(self)@
            }));
            assert forall|j: int| 0 <= j < self@.handles.len() implies ((
            #[trigger] self@.handles[j]) matches Some(v) ==> v.wf()) by {
                if j < old(self)@.handles.len() {
                    assert(old(self)@.handles[j] matches Some(v) ==> v.wf());
                }
            }
        }
        Handle { id }
    }

    /// Releases a handle, making its table entry vacant.  Every handle must
    /// be released exactly once: this contract admits only live handles, so
    /// a double release is ruled out at the caller.
    pub fn release_handle(&mut self, handle: Handle)
        requires
            old(self).wf(),
            old(self)@.handle_live(handle.id()),
        ensures
            final(self).wf(),
            final(self).owned() == old(self).owned(),
            final(self)@ == (VmState {
                handles: old(self)@.handles.update(handle.id(), None),
                ..old(self)@
            }),
    {
        self.state.handles[handle.id] = None;
        proof {
            assert(self@.handles =~= old(self)@.handles.update(handle.id(), None));
            assert(self@ =~= (VmState {
                handles: old(self)@.handles.update(handle.id(), None),
                ..old(self)@
            }));
            assert forall|j: int| 0 <= j < self@.handles.len() implies ((
            #[trigger] self@.handles[j]) matches Some(v) ==> v.wf()) by {
                if j != handle.id() {
                    assert(old(self)@.handles[j] matches Some(v) ==> v.wf());
                }
            }
        }
    }

    /// Writes the value a live handle refers to into `slot`.
    pub fn set_slot_handle(&mut self, slot: i32, handle: Handle)
        requires
            old(self).wf(),
            old(self)@.handle_live(handle.id()),
        ensures
            final(self).wf(),
            final(self).owned() == old(self).owned(),
            writable_slot(slot as int) ==> final(self)@ == (VmState {
                slots: stored(
                    old(self)@.slots,
                    slot as int,
                    old(self)@.handle_val(handle.id()),
                ),
                ..old(self)@
            }),
            !writable_slot(slot as int) ==> *final(self) == *old(self),
    {
        let v = match &self.state.handles[handle.id] {
            Some(h) => h.value.clone(),
            None => SlotValue::Null,
        };
        proof {
            assert(old(self)@.handles[handle.id()] matches Some(w) ==> w.wf());
        }
        self.put(slot, v);
    }

    /// Creates a foreign object of `size` bytes for the class in
    /// `class_slot`, stores it in `slot`, and returns its reference.  Absent
    /// when either slot cannot be addressed; the runtime is then never
    /// reached.
    pub fn set_slot_new_foreign(&mut self, slot: i32, class_slot: i32, size: usize) -> (r: Option<
        usize,
    >)
        requires
            old(self).wf(),
        ensures
            final(self).wf(),
            final(self).owned() == old(self).owned(),
            (r is Some) == (writable_slot(slot as int) && valid_slot(
                grown(old(self)@.slots, slot as int + 1),
                class_slot as int,
            )),
            r matches Some(id) ==> id as int == old(self)@.foreigns.len() && final(self)@
                == (VmState {
                slots: stored(old(self)@.slots, slot as int, Val::Foreign(id)),
                foreigns: old(self)@.foreigns.push(size),
                ..old(self)@
            }),
            r is None ==> *final(self) == *old(self),
    {
        if slot >= 0 && slot < 0x7fff_ffff {
            let wanted: usize = (slot + 1) as usize;
            let here: usize = self.state.slots.len();
            let glen: usize = if here >= wanted {
                here
            } else {
                wanted
            };
            proof {
                lemma_grown(self@.slots, slot as int + 1);
            }
            if class_slot >= 0 && (class_slot as usize) < glen {
                let id: usize = self.state.foreigns.len();
                self.state.foreigns.push(size);
                self.put(slot, SlotValue::Foreign(id));
                proof {
                    assert(self@ =~= (VmState {
                        slots: stored(old(self)@.slots, slot as int, Val::Foreign(id)),
                        foreigns: old(self)@.foreigns.push(size),
                        ..old(self)@
                    }));
                }
                Some(id)
            } else {
                None
            }
        } else {
            None
        }
    }

    /// Marks the executing fiber as failed, with the value in `slot` as the
    /// error.  The abort takes effect when the runtime next checks its fiber,
    /// not by preempting anything.
    pub fn abort_fiber(&mut self, slot: i32)
        requires
            old(self).wf(),
        ensures
            final(self).wf(),
            final(self).owned() == old(self).owned(),
            valid_slot(old(self)@.slots, slot as int) ==> final(self)@ == (VmState {
                fiber_error: Some(old(self)@.slots[slot as int]),
                ..old(self)@
            }),
            !valid_slot(old(self)@.slots, slot as int) ==> *final(self) == *old(self),
    {
        if slot >= 0 && (slot as usize) < self.state.slots.len() {
            proof {
                lemma_vals_index(self.state.slots@, slot as int);
                assert(old(self)@.slots[slot as int].wf());
            }
            let v = self.state.slots[slot as usize].clone();
            self.state.fiber_error = Some(v);
            proof {
                assert(self@ =~= (VmState {
                    fiber_error: Some(old(self)@.slots[slot as int]),
                    ..old(self)@
                }));
            }
        }
    }

    /// The element count of the list in `slot`: zero for anything else,
    /// never an error.
    pub fn get_list_count(&self, slot: i32) -> (n: i32)
        requires
            self.wf(),
        ensures
            n as int == list_count(self@.slots, slot as int),
    {
        if slot >= 0 && (slot as usize) < self.state.slots.len() {
            proof {
                lemma_vals_index(self.state.slots@, slot as int);
            }
            match &self.state.slots[slot as usize] {
                SlotValue::List(items) => {
                    proof {
                        assert(self@.slots[slot as int].wf());
                        lemma_vals_len(items@);
                    }
                    items.len() as i32
                },
                _ => 0,
            }
        } else {
            0
        }
    }

    /// Copies the list element at `index` into `element_slot` and reports
    /// whether an element was retrieved; on any violation — the target holds
    /// no list, or the index is out of its bounds — it writes null there
    /// instead.  A destination the runtime cannot address is left untouched.
    pub fn get_list_element(&mut self, list_slot: i32, index: i32, element_slot: i32) -> (got:
        bool)
        requires
            old(self).wf(),
        ensures
            final(self).wf(),
            final(self).owned() == old(self).owned(),
            got == (writable_slot(element_slot as int) && list_get_ok(
                old(self)@.slots,
                list_slot as int,
                index as int,
            )),
            !writable_slot(element_slot as int) ==> *final(self) == *old(self),
            writable_slot(element_slot as int) && list_get_ok(
                old(self)@.slots,
                list_slot as int,
                index as int,
            ) ==> final(self)@ == (VmState {
                slots: stored(
                    old(self)@.slots,
                    element_slot as int,
                    list_elem(old(self)@.slots, list_slot as int, index as int),
                ),
                ..old(self)@
            }),
            writable_slot(element_slot as int) && !list_get_ok(
                old(self)@.slots,
                list_slot as int,
                index as int,
            ) ==> final(self)@ == (VmState {
                slots: stored(old(self)@.slots, element_slot as int, Val::Null),
                ..old(self)@
            }),
    {
        if !(element_slot >= 0 && element_slot < 0x7fff_ffff) {
            return false;
        }
        let elem: Option<SlotValue> = if list_slot >= 0 && (list_slot as usize)
            < self.state.slots.len() {
            proof {
                lemma_vals_index(self.state.slots@, list_slot as int);
            }
            match &self.state.slots[list_slot as usize] {
                SlotValue::List(items) => {
                    proof {
                        assert(self@.slots[list_slot as int].wf());
                        lemma_vals_len(items@);
                    }
                    if index >= 0 && (index as usize) < items.len() {
                        proof {
                            lemma_vals_index(items@, index as int);
                        }
                        let v = items[index as usize].clone();
                        proof {
                            let lv = old(self)@.slots[list_slot as int];
                            assert(lv == Val::List(SlotValue::vals(items@)));
                            assert(lv.wf());
                            crate::value::lemma_list_elem_wf(lv, index as int);
                            assert(v@ == list_elem(self@.slots, list_slot as int, index as int));
                        }
                        Some(v)
                    } else {
                        None
                    }
                },
                _ => None,
            }
        } else {
            None
        };
        match elem {
            Some(v) => {
                self.put(element_slot, v);
                true
            },
            None => {
                self.put(element_slot, SlotValue::Null);
                false
            },
        }
    }

    /// Inserts the value of `element_slot` into the list in `list_slot` at
    /// `index` — `[0, count]` inclusive, `count` and `-1` both meaning the
    /// end — and reports whether it did.  On any violation nothing is
    /// mutated and the runtime is never reached.
    pub fn insert_in_list(&mut self, list_slot: i32, index: i32, element_slot: i32) -> (ok: bool)
        requires
            old(self).wf(),
        ensures
            final(self).wf(),
            final(self).owned() == old(self).owned(),
            ok == list_insert_ok(
                old(self)@.slots,
                list_slot as int,
                index as int,
                element_slot as int,
            ),
            ok ==> final(self)@ == (VmState {
                slots: list_inserted(
                    old(self)@.slots,
                    list_slot as int,
                    index as int,
                    element_slot as int,
                ),
                ..old(self)@
            }),
            !ok ==> *final(self) == *old(self),
    {
        if !(list_slot >= 0 && (list_slot as usize) < self.state.slots.len()) {
            return false;
        }
        if !(element_slot >= 0 && (element_slot as usize) < self.state.slots.len()) {
            return false;
        }
        let ls: usize = list_slot as usize;
        let es: usize = element_slot as usize;
        proof {
            lemma_vals_index(self.state.slots@, ls as int);
            lemma_vals_index(self.state.slots@, es as int);
        }
        let count: usize = match &self.state.slots[ls] {
            SlotValue::List(items) => {
                proof {
                    assert(self@.slots[ls as int].wf());
                    lemma_vals_len(items@);
                }
                items.len()
            },
            _ => {
                return false;
            },
        };
        if count >= 0x7fff_ffff {
            return false;
        }
        let pos: usize = if index >= 0 {
            if (index as usize) <= count {
                index as usize
            } else {
                return false;
            }
        } else {
            let p: i64 = count as i64 + 1 + index as i64;
            if p >= 0 {
                p as usize
            } else {
                return false;
            }
        };
        let elem = self.state.slots[es].clone();
        proof {
            assert(old(self)@.slots[es as int].wf());
        }
        let ghost vec0 = self.state.slots@;
        let entry = self.state.slots.remove(ls);
        let ghost items0 = entry->List_0@;
        let mut items_vec: Vec<SlotValue> = match entry {
            SlotValue::List(v) => v,
            _ => Vec::new(),
        };
        items_vec.insert(pos, elem);
        let ghost ivals = items_vec@;
        self.state.slots.insert(ls, SlotValue::List(items_vec));
        proof {
            assert(ivals == items0.insert(pos as int, elem));
            let fvec = self.state.slots@;
            assert(fvec.len() == vec0.len());
            assert(fvec[ls as int]->List_0@ == ivals);
            assert forall|i: int| 0 <= i < fvec.len() && i != ls as int implies fvec[i] == vec0[i]
                by {}
            crate::value::lemma_vals_insert(items0, pos as int, elem);
            let target = list_inserted(old(self)@.slots, ls as int, index as int, es as int);
            crate::value::lemma_vals_len(fvec);
            crate::value::lemma_vals_len(vec0);
            assert forall|i: int| 0 <= i < fvec.len() implies #[trigger] SlotValue::vals(fvec)[i]
                == target[i] by {
                lemma_vals_index(fvec, i);
                if i != ls as int {
                    lemma_vals_index(vec0, i);
                }
            }
            assert(self@.slots =~= target);
            assert(self@ =~= (VmState {
                slots: list_inserted(old(self)@.slots, ls as int, index as int, es as int),
                ..old(self)@
            }));
            let fslots = self@.slots;
            assert forall|i: int| 0 <= i < fslots.len() implies (#[trigger] fslots[i]).wf() by {
                if i != ls as int {
                    assert(old(self)@.slots[i].wf());
                }
            }
        }
        true
    }

    /// Replaces the opaque user-data word.
    pub fn set_user_data(&mut self, data: usize)
        ensures
            final(self)@ == (VmState { user_data: data, ..old(self)@ }),
            final(self).owned() == old(self).owned(),
            old(self).wf() ==> final(self).wf(),
    {
        self.state.user_data = data;
        proof {
            assert(self@ =~= (VmState { user_data: data, ..old(self)@ }));
        }
    }
}

} // verus!
