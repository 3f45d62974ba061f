//! The handle lifecycle manager.
//!
//! Every resource that crosses the boundary is owned by a table slot and
//! named outside by an opaque handle: a slot index paired with the
//! generation the slot had when the resource was put there.  A slot's
//! generation grows every time its resource is freed, so a stale handle
//! (freed, or consumed by a commit) never validates again: use after
//! free and double free are caught instead of being undefined.
//!
//! The one reserved "null" handle of the foreign boundary is modelled as
//! `None`; freeing it is a no-op and never an error.

use vstd::prelude::*;

verus! {

/// The bound no slot's generation ever reaches while occupied: the
/// boundary token packs a generation into 32 bits, so slots retire
/// instead of growing past it, and every live handle stays encodable.
pub const MAX_GENERATION: u64 = 0xFFFF_FFFF;

/// An opaque caller-held name for one table slot: the slot's index and
/// the generation the slot had when the resource was allocated.
#[derive(Clone, Copy, PartialEq, Eq, Structural, Debug)]
pub struct Handle {
    pub index: usize,
    pub generation: u64,
}

enum Slot<T> {
    Vacant(u64),
    Occupied(u64, T),
}

spec fn slot_bounded<T>(s: Slot<T>) -> bool {
    match s {
        Slot::Vacant(_) => true,
        Slot::Occupied(g, _) => g < MAX_GENERATION,
    }
}

/// A table of owned resources of one kind, addressed by generation-checked
/// handles.
pub struct HandleTable<T> {
    slots: Vec<Slot<T>>,
}

impl<T> HandleTable<T> {
    /// How many slots the table has ever had in use.
    pub closed spec fn slot_count(self) -> nat {
        self.slots@.len()
    }

    /// The current generation of slot `i`.
    pub closed spec fn slot_gen(self, i: int) -> u64 {
        match self.slots@[i] {
            Slot::Vacant(g) => g,
            Slot::Occupied(g, _) => g,
        }
    }

    /// Whether slot `i` currently holds a resource.
    pub closed spec fn slot_occupied(self, i: int) -> bool {
        self.slots@[i] is Occupied
    }

    /// The resource held by slot `i`, when it is occupied.
    pub closed spec fn slot_value(self, i: int) -> T {
        match self.slots@[i] {
            Slot::Occupied(_, v) => v,
            Slot::Vacant(_) => vstd::pervasive::arbitrary(),
        }
    }

    /// A live handle: its slot holds a resource put there at exactly the
    /// handle's generation.
    pub open spec fn is_live(self, h: Handle) -> bool {
        h.index < self.slot_count() && self.slot_occupied(h.index as int) && self.slot_gen(
            h.index as int,
        ) == h.generation
    }

    /// The resource a live handle names.
    pub open spec fn value_at(self, h: Handle) -> T {
        self.slot_value(h.index as int)
    }

    /// A handle whose slot has moved past its generation.  Such a handle
    /// is dead now, and every table operation preserves this, so it can
    /// never validate again.
    pub open spec fn outlived(self, h: Handle) -> bool {
        h.index < self.slot_count() && self.slot_gen(h.index as int) > h.generation
    }

    /// Occupied slots keep their generation strictly below the bound,
    /// so a free can grow it and a live handle always fits the token.
    pub closed spec fn wf(self) -> bool {
        forall|i: int| 0 <= i < self.slots@.len() ==> slot_bounded(#[trigger] self.slots@[i])
    }

    /// Creates an empty table: no handle is live in it.
    pub fn new() -> (t: Self)
        ensures
            t.wf(),
            t.slot_count() == 0,
    {
        HandleTable { slots: Vec::new() }
    }

    /// Reports whether `h` is live.
    pub fn contains(&self, h: Handle) -> (b: bool)
        ensures
            b == self.is_live(h),
    {
        if h.index < self.slots.len() {
            match &self.slots[h.index] {
                Slot::Occupied(g, _) => *g == h.generation,
                Slot::Vacant(_) => false,
            }
        } else {
            false
        }
    }

    /// Borrows the resource a live handle names.
    pub fn get(&self, h: Handle) -> (r: Option<&T>)
        ensures
            match r {
                Some(v) => self.is_live(h) && *v == self.value_at(h),
                None => !self.is_live(h),
            },
    {
        if h.index < self.slots.len() {
            match &self.slots[h.index] {
                Slot::Occupied(g, v) => {
                    if *g == h.generation {
                        Some(v)
                    } else {
                        None
                    }
                },
                Slot::Vacant(_) => None,
            }
        } else {
            None
        }
    }

    /// Mutably borrows the resource a live handle names; nothing else in
    /// the table changes.
    pub fn borrow_mut(&mut self, h: Handle) -> (r: &mut T)
        requires
            old(self).wf(),
            old(self).is_live(h),
        ensures
            *r == old(self).value_at(h),
            final(self).slot_count() == old(self).slot_count(),
            forall|i: int|
                0 <= i < old(self).slot_count() ==> final(self).slot_gen(i) == old(self).slot_gen(i)
                    && #[trigger] final(self).slot_occupied(i) == old(self).slot_occupied(i),
            final(self).wf(),
            forall|h2: Handle| final(self).is_live(h2) == old(self).is_live(h2),
            forall|h2: Handle| old(self).outlived(h2) ==> final(self).outlived(h2),
            final(self).value_at(h) == *final(r),
            forall|h2: Handle|
                old(self).is_live(h2) && h2.index != h.index ==> final(self).value_at(h2) == old(self).value_at(h2),
    {
        let slot = &mut self.slots[h.index];
        match slot {
            Slot::Occupied(_, v) => v,
            Slot::Vacant(_) => vstd::pervasive::unreached(),
        }
    }

    fn find_reusable(&self) -> (r: Option<usize>)
        ensures
            match r {
                Some(i) => i < self.slot_count() && !self.slot_occupied(i as int) && self.slot_gen(
                    i as int,
                ) < MAX_GENERATION,
                None => true,
            },
    {
        let n = self.slots.len();
        let mut i: usize = 0;
        while i < n
            invariant
                n == self.slot_count(),
            decreases n - i,
        {
            match &self.slots[i] {
                Slot::Vacant(g) => {
                    if *g < MAX_GENERATION {
                        return Some(i);
                    }
                },
                Slot::Occupied(_, _) => {},
            }
            i = i + 1;
        }
        None
    }

    /// Puts a resource into the table and returns a fresh handle for it:
    /// live now, and neither live nor outlived before, so it names no
    /// earlier resource.  Every other handle is unaffected.
    pub fn allocate(&mut self, v: T) -> (h: Handle)
        requires
            old(self).wf(),
        ensures
            final(self).wf(),
            final(self).is_live(h),
            h.generation < MAX_GENERATION,
            final(self).value_at(h) == v,
            !old(self).is_live(h),
            !old(self).outlived(h),
            forall|h2: Handle| h2 != h ==> final(self).is_live(h2) == old(self).is_live(h2),
            forall|h2: Handle|
                old(self).is_live(h2) ==> final(self).value_at(h2) == old(self).value_at(h2),
            forall|h2: Handle| old(self).outlived(h2) ==> final(self).outlived(h2),
    {
        match self.find_reusable() {
            Some(i) => {
                let g = match &self.slots[i] {
                    Slot::Vacant(g0) => *g0,
                    Slot::Occupied(g0, _) => *g0,
                };
                self.slots.set(i, Slot::Occupied(g, v));
                proof {
                    assert forall|j: int|
                        0 <= j < self.slots@.len() implies slot_bounded(
                        #[trigger] self.slots@[j],
                    ) by {
                        if j != i as int {
                            assert(self.slots@[j] == old(self).slots@[j]);
                        }
                    }
                }
                Handle { index: i, generation: g }
            },
            None => {
                let i = self.slots.len();
                self.slots.push(Slot::Occupied(0, v));
                proof {
                    assert forall|j: int|
                        0 <= j < self.slots@.len() implies slot_bounded(
                        #[trigger] self.slots@[j],
                    ) by {
                        if j != i as int {
                            assert(self.slots@[j] == old(self).slots@[j]);
                        }
                    }
                }
                Handle { index: i, generation: 0 }
            },
        }
    }

    /// Takes the resource a handle names out of the table, retiring the
    /// handle: afterwards it is outlived and will never be live again.
    /// Returns `None`, and changes nothing, if the handle is not live
    /// (already freed, or never allocated).
    pub fn remove(&mut self, h: Handle) -> (r: Option<T>)
        requires
            old(self).wf(),
        ensures
            final(self).wf(),
            final(self).slot_count() == old(self).slot_count(),
            match r {
                Some(v) => old(self).is_live(h) && v == old(self).value_at(h),
                None => !old(self).is_live(h) && *final(self) == *old(self),
            },
            old(self).is_live(h) ==> final(self).outlived(h),
            !final(self).is_live(h),
            forall|h2: Handle| h2 != h ==> final(self).is_live(h2) == old(self).is_live(h2),
            forall|h2: Handle|
                old(self).is_live(h2) && h2 != h ==> final(self).value_at(h2) == old(self).value_at(h2),
            forall|h2: Handle| old(self).outlived(h2) ==> final(self).outlived(h2),
    {
        if h.index >= self.slots.len() {
            return None;
        }
        let live = match &self.slots[h.index] {
            Slot::Occupied(g, _) => *g == h.generation,
            Slot::Vacant(_) => false,
        };
        if !live {
            return None;
        }
        assert(self.slot_occupied(h.index as int));
        let mut tmp = Slot::Vacant(h.generation + 1);
        self.slots.set_and_swap(h.index, &mut tmp);
        proof {
            assert forall|j: int|
                0 <= j < self.slots@.len() implies slot_bounded(#[trigger] self.slots@[j]) by {
                if j != h.index as int {
                    assert(self.slots@[j] == old(self).slots@[j]);
                }
            }
        }
        match tmp {
            Slot::Occupied(_, v) => Some(v),
            Slot::Vacant(_) => vstd::pervasive::unreached(),
        }
    }

    /// The boundary destructor: frees the resource a handle names, and
    /// tolerates the null handle (`None`) as well as a stale handle —
    /// both leave the table exactly as it was.
    pub fn free(&mut self, h: Option<Handle>) -> (freed: bool)
        requires
            old(self).wf(),
        ensures
            final(self).wf(),
            final(self).slot_count() == old(self).slot_count(),
            match h {
                None => !freed && *final(self) == *old(self),
                Some(h0) => {
                    &&& freed == old(self).is_live(h0)
                    &&& !freed ==> *final(self) == *old(self)
                    &&& !final(self).is_live(h0)
                    &&& freed ==> final(self).outlived(h0)
                    &&& forall|h2: Handle|
                        h2 != h0 ==> final(self).is_live(h2) == old(self).is_live(h2)
                    &&& forall|h2: Handle|
                        old(self).is_live(h2) && h2 != h0 ==> final(self).value_at(h2) == old(self).value_at(h2)
                },
            },
            forall|h2: Handle| old(self).outlived(h2) ==> final(self).outlived(h2),
    {
        match h {
            None => false,
            Some(h0) => {
                let r = self.remove(h0);
                match r {
                    Some(_) => true,
                    None => false,
                }
            },
        }
    }
}

} // verus!
