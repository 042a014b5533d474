use vstd::prelude::*;

verus! {

/// A view into memory that a process owns: a base address and a length in
/// bytes. Whoever issues it vouches that the whole region belongs to one
/// process; the region never wraps around the address space.
#[derive(Clone, Copy, PartialEq, Eq, Structural)]
pub struct AppSlice {
    ptr: usize,
    len: usize,
}

impl AppSlice {
    pub closed spec fn base_spec(self) -> nat {
        self.ptr as nat
    }

    pub closed spec fn len_spec(self) -> nat {
        self.len as nat
    }

    /// The region fits in the address space.
    pub open spec fn wf(self) -> bool {
        self.base_spec() + self.len_spec() <= usize::MAX + 1
    }

    /// The region of `len` bytes at `ptr`, or `None` where it would run
    /// past the end of the address space.
    pub fn new(ptr: usize, len: usize) -> (r: Option<AppSlice>)
        ensures
            r is Some <==> ptr + len <= usize::MAX + 1,
            r matches Some(s) ==> s.base_spec() == ptr && s.len_spec() == len && s.wf(),
    {
        if len == 0 || ptr <= usize::MAX - (len - 1) {
            Some(AppSlice { ptr, len })
        } else {
            None
        }
    }

    /// Address of the first byte of the region.
    pub fn base(&self) -> (r: usize)
        ensures
            r == self.base_spec(),
    {
        self.ptr
    }

    /// Number of bytes in the region.
    pub fn len(&self) -> (r: usize)
        ensures
            r == self.len_spec(),
    {
        self.len
    }
}

} // verus!
