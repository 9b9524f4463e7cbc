use vstd::prelude::*;
use super::error::StackError;
use super::lua_value::{LuaValue, ValueModel};

verus! {

/// The operand stack: a vector of slots and the number of slots in use.
///
/// Slots `[0, top)` are live. `push` writes the slot at `top`, `pop` clears it again, so
/// the slots from `top` on hold nil as long as only `push` and `pop` touch them.
#[derive(Debug)]
pub struct LuaStack {
    pub slots: Vec<LuaValue>,
    pub top: usize,
}

/// The stack as values: all slots, live or not, and the top.
pub struct StackModel {
    pub slots: Seq<ValueModel>,
    pub top: nat,
}

/// Where an index points: a non-negative index at the slot of that number, a negative
/// one counted back from the top, so that -1 is the last value pushed.
pub open spec fn absolute(top: nat, index: int) -> int {
    if index >= 0 {
        index
    } else {
        top + index
    }
}

/// `slots` with the range `[from, to]` in reverse order.
pub open spec fn reversed_range(slots: Seq<ValueModel>, from: int, to: int) -> Seq<ValueModel> {
    Seq::new(
        slots.len(),
        |k: int|
            if from <= k <= to {
                slots[from + to - k]
            } else {
                slots[k]
            },
    )
}

impl View for LuaStack {
    type V = StackModel;

    open spec fn view(&self) -> StackModel {
        StackModel { slots: self.slots@.map_values(|v: LuaValue| v@), top: self.top as nat }
    }
}

impl LuaStack {
    /// The invariant of the stack: the top is within the slots.
    pub open spec fn wf(&self) -> bool {
        self.top <= self.slots@.len()
    }

    /// The number of slots.
    pub open spec fn capacity(&self) -> nat {
        self.slots@.len()
    }

    /// A stack of `size` slots, all nil, none in use.
    pub fn new(size: usize) -> (r: LuaStack)
        ensures
            r.wf(),
            r@.top == 0,
            r@.slots == Seq::new(size as nat, |k: int| ValueModel::Nil),
    {
        let mut slots: Vec<LuaValue> = Vec::new();
        let mut i: usize = 0;
        while i < size
            invariant
                i <= size,
                slots@.len() == i,
                forall|k: int| 0 <= k < i ==> (#[trigger] slots@[k])@ == ValueModel::Nil,
            decreases size - i,
        {
            slots.push(LuaValue::Nil);
            i = i + 1;
        }
        let r = LuaStack { slots, top: 0 };
        assert(r@.slots =~= Seq::new(size as nat, |k: int| ValueModel::Nil));
        r
    }

    /// Makes room for `n` values above the top: afterwards at least `n` slots are free.
    /// Slots are added, as nil, only where fewer are free; the values are unchanged.
    /// Returns false, and changes nothing, where the slots would outgrow the address
    /// space.
    pub fn check(&mut self, n: usize) -> (ok: bool)
        requires
            old(self).wf(),
        ensures
            final(self).wf(),
            final(self)@.top == old(self)@.top,
            ok == (old(self)@.top + n <= usize::MAX),
            !ok ==> final(self)@ == old(self)@,
            ok ==> final(self).capacity() == if old(self).capacity() >= old(self)@.top + n {
                old(self).capacity() as int
            } else {
                old(self)@.top + n
            },
            ok ==> forall|k: int|
                0 <= k < final(self).capacity() ==> #[trigger] final(self)@.slots[k] == if k
                    < old(self).capacity() {
                    old(self)@.slots[k]
                } else {
                    ValueModel::Nil
                },
    {
        if n > usize::MAX - self.top {
            return false;
        }
        let wanted: usize = self.top + n;
        while self.slots.len() < wanted
            invariant
                self.top == old(self).top,
                self.wf(),
                wanted == old(self).top + n,
                old(self).capacity() <= self.capacity(),
                self.capacity() <= wanted || self.capacity() == old(self).capacity(),
                forall|k: int|
                    0 <= k < self.capacity() ==> (#[trigger] self.slots@[k])@ == if k < old(
                        self,
                    ).capacity() {
                        old(self).slots@[k]@
                    } else {
                        ValueModel::Nil
                    },
            decreases wanted - self.slots.len(),
        {
            self.slots.push(LuaValue::Nil);
        }
        true
    }

    /// Puts a value on top. Fails with `Overflow`, and changes nothing, where every slot
    /// is in use.
    pub fn push(&mut self, val: LuaValue) -> (r: Result<(), StackError>)
        requires
            old(self).wf(),
        ensures
            final(self).wf(),
            old(self)@.top < old(self).capacity() ==> r is Ok && final(self)@.top == old(self)@.top
                + 1 && final(self)@.slots == old(self)@.slots.update(old(self)@.top as int, val@),
            old(self)@.top >= old(self).capacity() ==> r == Err::<(), StackError>(
                StackError::Overflow,
            ) && final(self)@ == old(self)@,
    {
        if self.top >= self.slots.len() {
            return Err(StackError::Overflow);
        }
        self.slots.set(self.top, val);
        self.top = self.top + 1;
        assert(self@.slots =~= old(self)@.slots.update(old(self)@.top as int, val@));
        Ok(())
    }

    /// Takes the top value off and leaves nil in its slot. Fails with `Underflow`, and
    /// changes nothing, where no slot is in use.
    pub fn pop(&mut self) -> (r: Result<LuaValue, StackError>)
        requires
            old(self).wf(),
        ensures
            final(self).wf(),
            old(self)@.top > 0 ==> r is Ok && r->Ok_0@ == old(self)@.slots[old(self)@.top - 1]
                && final(self)@.top == old(self)@.top - 1 && final(self)@.slots == old(
                self,
            )@.slots.update(old(self)@.top - 1, ValueModel::Nil),
            old(self)@.top == 0 ==> r == Err::<LuaValue, StackError>(StackError::Underflow)
                && final(self)@ == old(self)@,
    {
        if self.top == 0 {
            return Err(StackError::Underflow);
        }
        self.top = self.top - 1;
        let val = self.slots[self.top].clone();
        self.slots.set(self.top, LuaValue::Nil);
        assert(self@.slots =~= old(self)@.slots.update(old(self)@.top - 1, ValueModel::Nil));
        Ok(val)
    }

    /// The slot that an index points at, or `None` for a negative index that reaches
    /// below the first slot.
    pub fn abs_index(&self, index: i32) -> (r: Option<usize>)
        ensures
            absolute(self@.top, index as int) >= 0 ==> r == Some(
                absolute(self@.top, index as int) as usize,
            ),
            absolute(self@.top, index as int) < 0 ==> r is None,
    {
        if index >= 0 {
            Some(index as usize)
        } else {
            let back: usize = (-(index as i64)) as usize;
            if back > self.top {
                None
            } else {
                Some(self.top - back)
            }
        }
    }

    /// Whether an index points at a live slot.
    pub fn is_valid(&self, index: i32) -> (r: bool)
        ensures
            r == (0 <= absolute(self@.top, index as int) < self@.top),
    {
        match self.abs_index(index) {
            Some(at) => at < self.top,
            None => false,
        }
    }

    /// A copy of the value in the slot that the index points at. Fails with
    /// `OutOfBounds` where the index points at no slot.
    pub fn get(&self, index: i32) -> (r: Result<LuaValue, StackError>)
        ensures
            match r {
                Ok(v) => 0 <= absolute(self@.top, index as int) < self.capacity() && v@
                    == self@.slots[absolute(self@.top, index as int)],
                Err(e) => e == StackError::OutOfBounds && !(0 <= absolute(
                    self@.top,
                    index as int,
                ) < self.capacity()),
            },
    {
        match self.abs_index(index) {
            Some(at) => {
                if at < self.slots.len() {
                    Ok(self.slots[at].clone())
                } else {
                    Err(StackError::OutOfBounds)
                }
            },
            None => Err(StackError::OutOfBounds),
        }
    }

    /// Writes the slot that the index points at. Fails with `OutOfBounds`, and changes
    /// nothing, where the index points at no slot.
    pub fn set(&mut self, index: i32, val: LuaValue) -> (r: Result<(), StackError>)
        requires
            old(self).wf(),
        ensures
            final(self).wf(),
            final(self)@.top == old(self)@.top,
            match r {
                Ok(_) => 0 <= absolute(old(self)@.top, index as int) < old(self).capacity()
                    && final(self)@.slots == old(self)@.slots.update(
                    absolute(old(self)@.top, index as int),
                    val@,
                ),
                Err(e) => e == StackError::OutOfBounds && !(0 <= absolute(
                    old(self)@.top,
                    index as int,
                ) < old(self).capacity()) && final(self)@ == old(self)@,
            },
    {
        match self.abs_index(index) {
            Some(at) => {
                if at < self.slots.len() {
                    self.slots.set(at, val);
                    assert(self@.slots =~= old(self)@.slots.update(at as int, val@));
                    Ok(())
                } else {
                    Err(StackError::OutOfBounds)
                }
            },
            None => Err(StackError::OutOfBounds),
        }
    }

    /// Reverses the slots `from ..= to` in place. A range with `from >= to` holds at most
    /// one slot and nothing changes. Fails with `OutOfBounds`, and changes nothing, where
    /// a range of two or more slots does not lie within the slots.
    pub fn reverse(&mut self, from: i32, to: i32) -> (r: Result<(), StackError>)
        requires
            old(self).wf(),
        ensures
            final(self).wf(),
            final(self)@.top == old(self)@.top,
            from >= to ==> r is Ok && final(self)@ == old(self)@,
            from < to && 0 <= from && to < old(self).capacity() ==> r is Ok && final(self)@.slots
                == reversed_range(old(self)@.slots, from as int, to as int),
            from < to && !(0 <= from && to < old(self).capacity()) ==> r == Err::<
                (),
                StackError,
            >(StackError::OutOfBounds) && final(self)@ == old(self)@,
    {
        if from >= to {
            return Ok(());
        }
        if from < 0 || to as usize >= self.slots.len() {
            return Err(StackError::OutOfBounds);
        }
        let mut lo: usize = from as usize;
        let mut hi: usize = to as usize;
        while lo < hi
            invariant
                self.top == old(self).top,
                self.slots@.len() == old(self).slots@.len(),
                from <= lo,
                hi <= to,
                lo + hi == from + to,
                lo <= hi + 1,
                to < self.slots@.len(),
                0 <= from,
                forall|k: int|
                    0 <= k < self.slots@.len() ==> (#[trigger] self.slots@[k])@ == if (from <= k
                        < lo) || (hi < k <= to) {
                        old(self).slots@[from + to - k]@
                    } else {
                        old(self).slots@[k]@
                    },
            decreases hi + 1 - lo,
        {
            let low = self.slots[lo].clone();
            let high = self.slots[hi].clone();
            self.slots.set(lo, high);
            self.slots.set(hi, low);
            lo = lo + 1;
            hi = hi - 1;
        }
        assert(self@.slots =~= reversed_range(old(self)@.slots, from as int, to as int));
        Ok(())
    }
}

} // verus!
