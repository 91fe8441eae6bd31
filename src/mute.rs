//! The set of muted player slot ids.
use vstd::prelude::*;

verus! {

/// Player slot ids whose scoped chat is withheld from the local client.
///
/// One flag per possible id, so membership, insertion and removal are
/// constant time and the ids can be listed in ascending order.
pub struct MuteSet {
    flags: Vec<bool>,
}

impl View for MuteSet {
    type V = Set<u8>;

    closed spec fn view(&self) -> Set<u8> {
        Set::new(|id: u8| self.flags@[id as int])
    }
}

impl MuteSet {
    /// Well-formed: one flag for each of the 256 ids.
    pub closed spec fn wf(&self) -> bool {
        self.flags@.len() == 256
    }

    /// An empty set.
    pub fn new() -> (r: MuteSet)
        ensures
            r.wf(),
            r@ == Set::<u8>::empty(),
    {
        let mut flags: Vec<bool> = Vec::new();
        let mut i: usize = 0;
        while i < 256
            invariant
                i <= 256,
                flags@.len() == i,
                forall|k: int| 0 <= k < i ==> !flags@[k],
            decreases 256 - i,
        {
            flags.push(false);
            i = i + 1;
        }
        let r = MuteSet { flags };
        assert(r@ =~= Set::<u8>::empty());
        r
    }

    pub fn contains(&self, id: u8) -> (r: bool)
        requires
            self.wf(),
        ensures
            r == self@.contains(id),
    {
        self.flags[id as usize]
    }

    pub fn insert(&mut self, id: u8)
        requires
            old(self).wf(),
        ensures
            final(self).wf(),
            final(self)@ == old(self)@.insert(id),
    {
        self.flags[id as usize] = true;
        assert(self@ =~= old(self)@.insert(id));
    }

    pub fn remove(&mut self, id: u8)
        requires
            old(self).wf(),
        ensures
            final(self).wf(),
            final(self)@ == old(self)@.remove(id),
    {
        self.flags[id as usize] = false;
        assert(self@ =~= old(self)@.remove(id));
    }

    pub fn clear(&mut self)
        requires
            old(self).wf(),
        ensures
            final(self).wf(),
            final(self)@ == Set::<u8>::empty(),
    {
        let mut i: usize = 0;
        while i < 256
            invariant
                i <= 256,
                self.flags@.len() == 256,
                forall|k: int| 0 <= k < i ==> !self.flags@[k],
            decreases 256 - i,
        {
            self.flags[i] = false;
            i = i + 1;
        }
        assert(self@ =~= Set::<u8>::empty());
    }

    pub fn is_empty(&self) -> (r: bool)
        requires
            self.wf(),
        ensures
            r == (self@ == Set::<u8>::empty()),
    {
        let mut i: usize = 0;
        while i < 256
            invariant
                i <= 256,
                self.flags@.len() == 256,
                forall|k: int| 0 <= k < i ==> !self.flags@[k],
            decreases 256 - i,
        {
            if self.flags[i] {
                assert(self@.contains(i as u8));
                return false;
            }
            i = i + 1;
        }
        assert(self@ =~= Set::<u8>::empty());
        true
    }
}

} // verus!
