use vstd::prelude::*;

verus! {

/// A fixed-capacity byte region whose active part is a prefix of it.
///
/// The capacity never changes; `slice` shortens the active part and `reset`
/// restores it to the whole region.
pub struct Buffer {
    data: Vec<u8>,
    active: usize,
}

impl Buffer {
    /// Every byte of the region, active or not.
    pub closed spec fn storage(&self) -> Seq<u8> {
        self.data@
    }

    /// How many bytes, from the start of the region, are active.
    pub closed spec fn spec_active_len(&self) -> nat {
        self.active as nat
    }

    pub open spec fn spec_capacity(&self) -> nat {
        self.storage().len()
    }

    pub open spec fn wf(&self) -> bool {
        self.spec_active_len() <= self.spec_capacity()
    }

    /// The bytes that a reader of the buffer sees.
    pub open spec fn view(&self) -> Seq<u8> {
        self.storage().subrange(0, self.spec_active_len() as int)
    }

    /// A buffer over `data`, all of it active.
    pub fn new(data: Vec<u8>) -> (r: Buffer)
        ensures
            r.wf(),
            r.storage() == data@,
            r.spec_active_len() == data@.len(),
    {
        let active = data.len();
        Buffer { data, active }
    }

    pub fn capacity(&self) -> (r: usize)
        ensures
            r == self.spec_capacity(),
    {
        self.data.len()
    }

    pub fn len(&self) -> (r: usize)
        ensures
            r == self.spec_active_len(),
    {
        self.active
    }

    /// The active bytes, copied out.
    pub fn to_vec(&self) -> (r: Vec<u8>)
        requires
            self.wf(),
        ensures
            r@ == self.view(),
    {
        let mut r: Vec<u8> = Vec::new();
        let mut i: usize = 0;
        while i < self.active
            invariant
                self.wf(),
                i <= self.active,
                r@ == self.data@.subrange(0, i as int),
            decreases self.active - i,
        {
            r.push(self.data[i]);
            i = i + 1;
            assert(r@ =~= self.data@.subrange(0, i as int));
        }
        r
    }

    /// Writes `b` at offset `i` of the region.
    pub fn set(&mut self, i: usize, b: u8)
        requires
            i < old(self).spec_capacity(),
        ensures
            final(self).storage() == old(self).storage().update(i as int, b),
            final(self).spec_active_len() == old(self).spec_active_len(),
    {
        self.data.set(i, b);
    }

    /// Restricts the active part to the first `end` bytes of the region.
    pub fn slice(&mut self, end: usize)
        requires
            end <= old(self).spec_capacity(),
        ensures
            final(self).wf(),
            final(self).storage() == old(self).storage(),
            final(self).spec_active_len() == end,
    {
        self.active = end;
    }

    /// Makes the whole region active again.
    pub fn reset(&mut self)
        ensures
            final(self).wf(),
            final(self).storage() == old(self).storage(),
            final(self).spec_active_len() == old(self).spec_capacity(),
    {
        self.active = self.data.len();
    }
}

} // verus!
