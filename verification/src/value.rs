//! The values a slot can hold, and their mathematical model.
//!
//! The runtime keeps every value on its own heap; the host only ever sees a
//! value through the typed slot accessors.  `SlotValue` records exactly what
//! is observable that way: a boolean, the bit pattern of a double, the bytes
//! of a string, an opaque foreign reference, a list of further values, null,
//! or `Unknown` for anything the interface has no accessor for.  `Val` is the
//! mathematical shape of such a value, used by every contract.

use vstd::prelude::*;

use crate::types::WrenType;

verus! {

/// The mathematical value of a slot: what every contract speaks of.
pub enum Val {
    Bool(bool),
    /// A number, carried exactly as the bit pattern of the runtime's double.
    Num(u64),
    /// A string: the runtime stores strings as plain byte arrays.
    Str(Seq<u8>),
    /// A foreign object, identified by an opaque reference.
    Foreign(usize),
    List(Seq<Val>),
    Null,
    /// A value the host interface cannot read (a class, a closure, a map …).
    Unknown,
}

impl Val {
    /// The type tag the runtime reports for this value.
    pub open spec fn tag(self) -> WrenType {
        match self {
            Val::Bool(_) => WrenType::Bool,
            Val::Num(_) => WrenType::Num,
            Val::Str(_) => WrenType::String,
            Val::Foreign(_) => WrenType::Foreign,
            Val::List(_) => WrenType::List,
            Val::Null => WrenType::Null,
            Val::Unknown => WrenType::Unknown,
        }
    }

    /// Every list reachable inside the value is short enough for the
    /// runtime's signed 32-bit element counts.
    pub open spec fn wf(self) -> bool
        decreases self,
    {
        match self {
            Val::List(items) => items.len() <= 0x7fff_ffff && (forall|i: int|
                0 <= i < items.len() ==> (#[trigger] items[i]).wf()),
            _ => true,
        }
    }
}

/// Each element of a well-formed list is well-formed itself.
pub proof fn lemma_list_elem_wf(v: Val, i: int)
    requires
        v.wf(),
        v is List,
        0 <= i < v->List_0.len(),
    ensures
        v->List_0[i].wf(),
{
    match v {
        Val::List(items) => {
            assert(items[i].wf());
        },
        _ => {},
    }
}

/// One value as the host materialises it on its side of the boundary.
pub enum SlotValue {
    Bool(bool),
    Num(u64),
    Str(Vec<u8>),
    Foreign(usize),
    List(Vec<SlotValue>),
    Null,
    Unknown,
}

impl SlotValue {
    pub open spec fn val(self) -> Val
        decreases self,
        via Self::val_decreases
    {
        match self {
            SlotValue::Bool(b) => Val::Bool(b),
            SlotValue::Num(bits) => Val::Num(bits),
            SlotValue::Str(bytes) => Val::Str(bytes@),
            SlotValue::Foreign(id) => Val::Foreign(id),
            SlotValue::List(items) => Val::List(SlotValue::vals(items@)),
            SlotValue::Null => Val::Null,
            SlotValue::Unknown => Val::Unknown,
        }
    }

    /// The model of a sequence of values, element by element.
    pub open spec fn vals(items: Seq<SlotValue>) -> Seq<Val>
        decreases items,
        via Self::vals_decreases
    {
        if items.len() == 0 {
            Seq::empty()
        } else {
            SlotValue::vals(items.subrange(0, items.len() - 1)).push(
                items[items.len() - 1].val(),
            )
        }
    }

    #[via_fn]
    proof fn val_decreases(self) {
        match self {
            SlotValue::List(items) => {
                assert(decreases_to!(self => items));
                assert(decreases_to!(items => items@));
            },
            _ => {},
        }
    }

    #[via_fn]
    proof fn vals_decreases(items: Seq<SlotValue>) {
        if items.len() > 0 {
            assert(decreases_to!(items => items.subrange(0, items.len() - 1)));
            assert(decreases_to!(items => items[items.len() - 1]));
        }
    }
}

impl View for SlotValue {
    type V = Val;

    open spec fn view(&self) -> Val {
        self.val()
    }
}

/// A modelled sequence is as long as the sequence it models.
pub broadcast proof fn lemma_vals_len(items: Seq<SlotValue>)
    ensures
        #[trigger] SlotValue::vals(items).len() == items.len(),
    decreases items,
{
    if items.len() > 0 {
        lemma_vals_len(items.subrange(0, items.len() - 1));
    }
}

/// A modelled sequence models each element in place.
pub broadcast proof fn lemma_vals_index(items: Seq<SlotValue>, i: int)
    requires
        0 <= i < items.len(),
    ensures
        #[trigger] SlotValue::vals(items)[i] == items[i].val(),
    decreases items,
{
    lemma_vals_len(items);
    if items.len() > 0 {
        let front = items.subrange(0, items.len() - 1);
        lemma_vals_len(front);
        if i < items.len() - 1 {
            lemma_vals_index(front, i);
            assert(front[i] == items[i]);
        }
    }
}

/// Appending a value models as appending its model.
pub broadcast proof fn lemma_vals_push(items: Seq<SlotValue>, v: SlotValue)
    ensures
        #[trigger] SlotValue::vals(items.push(v)) == SlotValue::vals(items).push(v.val()),
{
    let p = items.push(v);
    assert(p.subrange(0, p.len() - 1) =~= items);
}

/// Replacing one value models as replacing its model.
pub broadcast proof fn lemma_vals_update(items: Seq<SlotValue>, i: int, v: SlotValue)
    requires
        0 <= i < items.len(),
    ensures
        #[trigger] SlotValue::vals(items.update(i, v)) == SlotValue::vals(items).update(
            i,
            v.val(),
        ),
{
    let u = items.update(i, v);
    lemma_vals_len(items);
    lemma_vals_len(u);
    assert forall|j: int| 0 <= j < items.len() implies #[trigger] SlotValue::vals(u)[j]
        == SlotValue::vals(items).update(i, v.val())[j] by {
        lemma_vals_index(u, j);
        lemma_vals_index(items, j);
    }
    assert(SlotValue::vals(u) =~= SlotValue::vals(items).update(i, v.val()));
}

/// Inserting a value models as inserting its model.
pub broadcast proof fn lemma_vals_insert(items: Seq<SlotValue>, i: int, v: SlotValue)
    requires
        0 <= i <= items.len(),
    ensures
        #[trigger] SlotValue::vals(items.insert(i, v)) == SlotValue::vals(items).insert(
            i,
            v.val(),
        ),
{
    let a = items.insert(i, v);
    let b = SlotValue::vals(items).insert(i, v.val());
    lemma_vals_len(items);
    lemma_vals_len(a);
    assert forall|j: int| 0 <= j < a.len() implies #[trigger] SlotValue::vals(a)[j] == b[j] by {
        lemma_vals_index(a, j);
        if j < i {
            assert(a[j] == items[j]);
            lemma_vals_index(items, j);
        } else if j == i {
            assert(a[j] == v);
        } else {
            assert(a[j] == items[j - 1]);
            lemma_vals_index(items, j - 1);
        }
    }
    assert(SlotValue::vals(a) =~= b);
}

/// The lemmas every client of the model needs at hand.
pub broadcast group group_vals {
    lemma_vals_insert,
    lemma_vals_len,
    lemma_vals_index,
    lemma_vals_push,
    lemma_vals_update,
}

impl SlotValue {
    /// The type tag the runtime would report for this value.
    pub fn tag(&self) -> (t: WrenType)
        ensures
            t == self@.tag(),
    {
        match self {
            SlotValue::Bool(_) => WrenType::Bool,
            SlotValue::Num(_) => WrenType::Num,
            SlotValue::Str(_) => WrenType::String,
            SlotValue::Foreign(_) => WrenType::Foreign,
            SlotValue::List(_) => WrenType::List,
            SlotValue::Null => WrenType::Null,
            SlotValue::Unknown => WrenType::Unknown,
        }
    }
}

impl Clone for SlotValue {
    /// Copying a value out of or into a slot preserves it exactly.
    fn clone(&self) -> (r: Self)
        ensures
            r@ == self@,
        decreases self,
    {
        match self {
            SlotValue::Bool(b) => SlotValue::Bool(*b),
            SlotValue::Num(bits) => SlotValue::Num(*bits),
            SlotValue::Str(bytes) => SlotValue::Str(bytes.clone()),
            SlotValue::Foreign(id) => SlotValue::Foreign(*id),
            SlotValue::List(items) => {
                let mut out: Vec<SlotValue> = Vec::new();
                let mut i: usize = 0;
                while i < items.len()
                    invariant
                        i <= items@.len(),
                        out@.len() == i as int,
                        (*self == SlotValue::List(*items)),
                        forall|j: int| 0 <= j < i as int ==> out@[j]@ == #[trigger] items@[j]@,
                    decreases items@.len() - i,
                {
                    proof {
                        assert(decreases_to!(*self => self->List_0));
                        assert(self->List_0 == *items);
                        assert(decreases_to!(*items => items@));
                        assert(decreases_to!(items@ => items@[i as int]));
                    }
                    out.push(items[i].clone());
                    i = i + 1;
                }
                let r = SlotValue::List(out);
                proof {
                    lemma_vals_len(out@);
                    lemma_vals_len(items@);
                    assert forall|j: int| 0 <= j < items@.len() implies
                        #[trigger] SlotValue::vals(out@)[j] == SlotValue::vals(items@)[j] by {
                        lemma_vals_index(out@, j);
                        lemma_vals_index(items@, j);
                        assert(out@[j]@ == items@[j]@);
                    }
                    assert(SlotValue::vals(out@) =~= SlotValue::vals(items@));
                }
                r
            },
            SlotValue::Null => SlotValue::Null,
            SlotValue::Unknown => SlotValue::Unknown,
        }
    }
}

} // verus!
