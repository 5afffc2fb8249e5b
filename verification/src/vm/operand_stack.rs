use vstd::prelude::*;
use crate::vm::value::{Value, ValueView, values_view};

verus! {

/// The operand stack of one frame. The top of the stack is the last item.
#[derive(Debug, Clone, PartialEq)]
pub struct OperandStack {
    stack: Vec<Value>,
}

impl View for OperandStack {
    type V = Seq<ValueView>;

    closed spec fn view(&self) -> Seq<ValueView> {
        values_view(self.stack@)
    }
}

impl OperandStack {
    pub fn new() -> (r: Self)
        ensures
            r@ == Seq::<ValueView>::empty(),
    {
        let r = OperandStack { stack: Vec::new() };
        assert(r@ =~= Seq::<ValueView>::empty());
        r
    }

    pub fn push(&mut self, value: Value)
        ensures
            final(self)@ == old(self)@.push(value@),
    {
        self.stack.push(value);
        assert(self@ =~= old(self)@.push(value@));
    }

    /// Inserts `item` so that it stands at `index`, counted from the bottom.
    pub fn push_at(&mut self, item: Value, index: usize)
        requires
            index <= old(self)@.len(),
        ensures
            final(self)@ == old(self)@.insert(index as int, item@),
    {
        self.stack.insert(index, item);
        assert(self@ =~= old(self)@.insert(index as int, item@));
    }

    pub fn pop(&mut self) -> (r: Option<Value>)
        ensures
            old(self)@.len() == 0 ==> r is None && final(self)@ == old(self)@,
            old(self)@.len() > 0 ==> r is Some && r->0@ == old(self)@.last() && final(self)@
                == old(self)@.drop_last(),
    {
        let r = self.stack.pop();
        assert(old(self)@.len() > 0 ==> self@ =~= old(self)@.drop_last());
        r
    }

    pub fn peek(&self) -> (r: Option<&Value>)
        ensures
            self@.len() == 0 ==> r is None,
            self@.len() > 0 ==> r is Some && r->0@ == self@.last(),
    {
        let n = self.stack.len();
        if n == 0 {
            None
        } else {
            Some(&self.stack[n - 1])
        }
    }

    /// The item at `index`, counted from the bottom.
    pub fn peek_at(&self, index: usize) -> (r: Option<&Value>)
        ensures
            index >= self@.len() ==> r is None,
            index < self@.len() ==> r is Some && r->0@ == self@[index as int],
    {
        if index < self.stack.len() {
            Some(&self.stack[index])
        } else {
            None
        }
    }

    pub fn len(&self) -> (r: usize)
        ensures
            r == self@.len(),
    {
        self.stack.len()
    }

    /// Exchanges the items at `a` and `b`, counted from the bottom.
    pub fn swap(&mut self, a: usize, b: usize)
        requires
            a < old(self)@.len(),
            b < old(self)@.len(),
        ensures
            final(self)@ == old(self)@.update(a as int, old(self)@[b as int]).update(
                b as int,
                old(self)@[a as int],
            ),
    {
        let first = self.stack[a].clone();
        let second = self.stack[b].clone();
        self.stack[a] = second;
        self.stack[b] = first;
        assert(self@ =~= old(self)@.update(a as int, old(self)@[b as int]).update(
            b as int,
            old(self)@[a as int],
        ));
    }
}

} // verus!
