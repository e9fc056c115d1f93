use vstd::prelude::*;

verus! {

/// The engine index of element `index` of an array of `len` elements, as
/// the engine reports the length: `None` where there is no such element.
pub open spec fn element_index_of(index: int, len: int) -> Option<int> {
    if 0 <= index < len {
        Some(index)
    } else {
        None
    }
}

/// The engine index for reading, replacing or removing element `index` of
/// an array whose engine length is `len`. An index at or past the end has
/// none: such a read finds nothing and such a change does nothing.
pub fn element_index(index: usize, len: i32) -> (r: Option<i32>)
    ensures
        r.is_some() <==> element_index_of(index as int, len as int).is_some(),
        r.is_some() ==> r.unwrap() as int == index as int,
{
    if len > 0 && index < len as usize {
        Some(index as i32)
    } else {
        None
    }
}

/// The engine index for inserting before element `index` of an array whose
/// engine length is `len`; inserting at `len` appends. Past that there is
/// none, and the insertion does nothing.
pub fn insertion_index(index: usize, len: i32) -> (r: Option<i32>)
    ensures
        r.is_some() <==> 0 <= index as int <= len as int,
        r.is_some() ==> r.unwrap() as int == index as int,
{
    if len >= 0 && index <= len as usize {
        Some(index as i32)
    } else {
        None
    }
}

/// The position of a cursor after `steps` steps from the start over an
/// array of engine length `len`.
pub open spec fn cursor_position(len: int, steps: nat) -> int
    decreases steps,
{
    if steps == 0 {
        0
    } else {
        let p = cursor_position(len, (steps - 1) as nat);
        if element_index_of(p, len).is_some() {
            p + 1
        } else {
            p
        }
    }
}

/// A forward cursor over the elements of an array, by index: it yields each
/// index in turn, and nothing once past the end. Restart it with `new`.
pub struct ArrayCursor {
    pub position: usize,
}

impl ArrayCursor {
    /// A cursor at the first element
    pub fn new() -> (r: Self)
        ensures
            r.position == 0,
    {
        ArrayCursor { position: 0 }
    }

    /// The engine index of the next element of an array whose engine length
    /// is `len`, moving past it; `None`, without moving, at the end
    pub fn next_index(&mut self, len: i32) -> (r: Option<i32>)
        ensures
            r.is_some() <==> element_index_of(old(self).position as int, len as int).is_some(),
            r.is_some() ==> r.unwrap() as int == old(self).position as int,
            final(self).position == if r.is_some() { old(self).position + 1 } else { old(self).position as int },
    {
        let r = element_index(self.position, len);
        if r.is_some() {
            self.position = self.position + 1;
        }
        r
    }
}

/// Iteration visits the elements in index order, each once, and stops at the
/// end: from the start, step `k` yields index `k` while `k` is below the
/// length, and nothing after.
pub proof fn lemma_cursor_visits_in_order(len: int, k: nat)
    ensures
        cursor_position(len, k) == if k <= len { k as int } else if len >= 0 { len } else { 0 },
        element_index_of(cursor_position(len, k), len) == if k < len { Some(k as int) } else { None },
    decreases k,
{
    if k > 0 {
        lemma_cursor_visits_in_order(len, (k - 1) as nat);
    }
}

} // verus!
