use vstd::prelude::*;
use crate::vm::value::{Value, ValueView, slots_view};

verus! {

/// The local variables of one frame: a fixed number of slots, each holding
/// a value or nothing.
#[derive(Debug, Clone, PartialEq)]
pub struct LocalVariables {
    vars: Vec<Option<Value>>,
}

impl View for LocalVariables {
    type V = Seq<Option<ValueView>>;

    closed spec fn view(&self) -> Seq<Option<ValueView>> {
        slots_view(self.vars@)
    }
}

/// `size` empty slots.
pub open spec fn empty_slots(size: nat) -> Seq<Option<ValueView>> {
    Seq::new(size, |i: int| None::<ValueView>)
}

/// What a read of slot `index` gives: the value there, or nothing where the
/// slot is empty or `index` lies past the last slot.
pub open spec fn slot_value(slots: Seq<Option<ValueView>>, index: int) -> Option<ValueView> {
    if 0 <= index < slots.len() {
        slots[index]
    } else {
        None
    }
}

/// The slots after a write of `value` to slot `index`: a write past the
/// last slot changes nothing.
pub open spec fn slots_after_set(
    slots: Seq<Option<ValueView>>,
    index: int,
    value: ValueView,
) -> Seq<Option<ValueView>> {
    if 0 <= index < slots.len() {
        slots.update(index, Some(value))
    } else {
        slots
    }
}

impl LocalVariables {
    pub fn new(size: usize) -> (r: Self)
        ensures
            r@ == empty_slots(size as nat),
    {
        let mut vars: Vec<Option<Value>> = Vec::new();
        let mut i: usize = 0;
        while i < size
            invariant
                i <= size,
                vars.len() == i,
                forall|k: int| 0 <= k < i ==> vars[k] is None,
            decreases size - i,
        {
            vars.push(None);
            i += 1;
        }
        let r = LocalVariables { vars };
        assert(r@ =~= empty_slots(size as nat));
        r
    }

    pub fn set(&mut self, index: usize, value: Value)
        ensures
            final(self)@ == slots_after_set(old(self)@, index as int, value@),
    {
        if index < self.vars.len() {
            self.vars[index] = Some(value);
            assert(self@ =~= old(self)@.update(index as int, Some(value@)));
        }
    }

    pub fn get(&self, index: usize) -> (r: Option<&Value>)
        ensures
            match r {
                Some(v) => slot_value(self@, index as int) == Some(v@),
                None => slot_value(self@, index as int) is None,
            },
    {
        if index < self.vars.len() {
            match &self.vars[index] {
                Some(v) => Some(v),
                None => None,
            }
        } else {
            None
        }
    }

    /// The number of slots.
    pub fn len(&self) -> (r: usize)
        ensures
            r == self@.len(),
    {
        self.vars.len()
    }
}

} // verus!
