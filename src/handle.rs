//! Opaque handles and the arena of typed values that stand behind them.
use vstd::prelude::*;

verus! {

/// An address-sized token that the host holds for a value owned by an arena.
pub type Handle = usize;

/// The storage behind opaque handles: each live handle owns exactly one value.
///
/// A handle is minted by `insert`, stays live while the value it owns is only
/// borrowed (`get`, `get_mut`), and dies exactly once, when `remove` hands its value
/// back for good. Handles are never reused, so a handle that
/// has died cannot come back to life and alias a later value.
pub struct HandleArena<V> {
    slots: Vec<Option<V>>,
}

impl<V> View for HandleArena<V> {
    type V = Map<Handle, V>;

    /// The live handles and the value that each one owns.
    closed spec fn view(&self) -> Map<Handle, V> {
        Map::new(
            |h: Handle| (h as int) < self.slots@.len() && self.slots@[h as int] is Some,
            |h: Handle| self.slots@[h as int]->Some_0,
        )
    }
}

impl<V> HandleArena<V> {
    /// The arena has minted every handle it can represent.
    pub open spec fn is_exhausted(&self) -> bool {
        self.minted() == usize::MAX
    }

    /// Every handle that this arena has minted so far, live or dead, is below this bound.
    pub closed spec fn minted(&self) -> nat {
        self.slots@.len()
    }

    /// An arena that owns nothing.
    pub fn new() -> (r: Self)
        ensures
            r@ == Map::<Handle, V>::empty(),
            !r.is_exhausted(),
            r.minted() == 0,
    {
        let r = HandleArena { slots: Vec::new() };
        assert(r@ =~= Map::<Handle, V>::empty());
        r
    }

    /// Whether no handle is live, so that the arena owns nothing.
    pub fn is_empty(&self) -> (r: bool)
        ensures
            r == (self@ == Map::<Handle, V>::empty()),
    {
        let mut i: usize = 0;
        while i < self.slots.len()
            invariant
                i <= self.slots@.len(),
                forall|j: int| 0 <= j < i ==> self.slots@[j] is None,
            decreases self.slots@.len() - i,
        {
            if self.slots[i].is_some() {
                assert(self@.contains_key(i));
                assert(!Map::<Handle, V>::empty().contains_key(i));
                return false;
            }
            i = i + 1;
        }
        assert(self@ =~= Map::<Handle, V>::empty());
        true
    }

    /// Whether `h` is live.
    pub fn contains(&self, h: Handle) -> (r: bool)
        ensures
            r == self@.contains_key(h),
    {
        h < self.slots.len() && self.slots[h].is_some()
    }

    /// Whether every handle has been minted, so that `insert` would fail.
    pub fn exhausted(&self) -> (r: bool)
        ensures
            r == self.is_exhausted(),
    {
        self.slots.len() == usize::MAX
    }

    /// Moves `v` behind a fresh handle, or hands nothing back when the arena is exhausted.
    pub fn insert(&mut self, v: V) -> (r: Option<Handle>)
        ensures
            r is None <==> old(self).is_exhausted(),
            r is None ==> *final(self) == *old(self),
            r matches Some(h) ==> {
                &&& !old(self)@.contains_key(h)
                &&& h as nat == old(self).minted()
                &&& final(self)@ == old(self)@.insert(h, v)
                &&& final(self).minted() == old(self).minted() + 1
            },
    {
        if self.slots.len() == usize::MAX {
            return None;
        }
        let h: Handle = self.slots.len();
        self.slots.push(Some(v));
        assert(self@ =~= old(self)@.insert(h, v));
        Some(h)
    }

    /// Borrows the value that `h` owns.
    pub fn get(&self, h: Handle) -> (r: &V)
        requires
            self@.contains_key(h),
        ensures
            *r == self@[h],
    {
        self.slots[h].as_ref().unwrap()
    }

    /// Borrows the value that `h` owns mutably, in place: `h` stays live and
    /// owns whatever the borrow leaves behind.
    pub fn get_mut(&mut self, h: Handle) -> (r: &mut V)
        requires
            old(self)@.contains_key(h),
        ensures
            *r == old(self)@[h],
            final(self)@ == old(self)@.insert(h, *final(r)),
            final(self).minted() == old(self).minted(),
    {
        let slot = &mut self.slots[h];
        let r = slot.as_mut().unwrap();
        r
    }

    /// Takes the value that `h` owns; `h` is dead afterwards.
    pub fn remove(&mut self, h: Handle) -> (r: V)
        requires
            old(self)@.contains_key(h),
        ensures
            r == old(self)@[h],
            (h as nat) < old(self).minted(),
            final(self)@ == old(self)@.remove(h),
            final(self).minted() == old(self).minted(),
    {
        let mut taken: Option<V> = None;
        self.slots.set_and_swap(h, &mut taken);
        assert(self@ =~= old(self)@.remove(h));
        taken.unwrap()
    }
}

} // verus!
