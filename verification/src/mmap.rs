use vstd::prelude::*;

verus! {

/// The address that `mmap` returns in place of a mapping when it fails.
pub const MAP_FAILED: usize = usize::MAX;

/// A mapping could not be made.
#[derive(Clone, Copy, Debug, PartialEq, Eq, Structural)]
pub struct MapError {
    /// The number of bytes that were asked for.
    pub len: usize,
}

/// A region of memory that was mapped: where it starts and how long it is.
///
/// The mapping itself is made and undone by the caller; this type records
/// what has to be undone.
#[derive(Debug)]
pub struct MappedMemory {
    addr: usize,
    size: usize,
}

impl MappedMemory {
    pub closed spec fn spec_addr(&self) -> usize {
        self.addr
    }

    pub closed spec fn spec_size(&self) -> usize {
        self.size
    }

    /// Takes what `mmap` returned for a request of `len` bytes: a mapping,
    /// unless it is the address that stands for failure.
    pub fn new(len: usize, addr: usize) -> (mapped: Result<MappedMemory, MapError>)
        ensures
            addr != MAP_FAILED ==> mapped is Ok && mapped->Ok_0.spec_addr() == addr
                && mapped->Ok_0.spec_size() == len,
            addr == MAP_FAILED ==> mapped == Err::<MappedMemory, MapError>(MapError { len }),
    {
        if addr == MAP_FAILED {
            Err(MapError { len })
        } else {
            Ok(MappedMemory { addr, size: len })
        }
    }

    #[verifier::when_used_as_spec(spec_addr)]
    pub fn as_raw(&self) -> (addr: usize)
        ensures
            addr == self.spec_addr(),
    {
        self.addr
    }

    #[verifier::when_used_as_spec(spec_size)]
    pub fn size(&self) -> (size: usize)
        ensures
            size == self.spec_size(),
    {
        self.size
    }

    /// Gives the mapping up: the start and the length to unmap.
    pub fn release(self) -> (region: (usize, usize))
        ensures
            region == (self.spec_addr(), self.spec_size()),
    {
        (self.addr, self.size)
    }
}

} // verus!
