use vstd::prelude::*;
use vstd::string::StringSliceAdditionalSpecFns;

verus! {

/// The system call on a shared-memory object that failed, with the status it
/// returned.
#[derive(Clone, Copy, Debug, PartialEq, Eq, Structural)]
pub enum ShmError {
    Open(i32),
    Unlink(i32),
    Truncate(i32),
}

/// An open shared-memory object: its descriptor, the name it was opened
/// under, and whether that name has been removed again.
///
/// The system calls themselves are made by the caller, who reports each
/// status here; this type keeps track of what is still owed to the kernel.
#[derive(Debug)]
pub struct ShmFd {
    fd: i32,
    path: String,
    unlinked: bool,
}

/// What is left to do to give a shared-memory object back to the kernel, in
/// this order: remove the name if `unlink` holds one, then close `fd`.
#[derive(Debug)]
pub struct ShmRelease {
    pub unlink: Option<String>,
    pub fd: i32,
}

/// A name can be handed to the kernel if no zero byte occurs in it.
pub open spec fn spec_valid_name(name: &str) -> bool {
    !name.spec_bytes().contains(0u8)
}

pub fn valid_name(name: &str) -> (ok: bool)
    ensures
        ok == spec_valid_name(name),
{
    let bytes = name.as_bytes();
    let mut i: usize = 0;
    while i < bytes.len()
        invariant
            i <= bytes@.len(),
            bytes@ == name.spec_bytes(),
            forall|j: int| 0 <= j < i ==> bytes@[j] != 0u8,
        decreases bytes@.len() - i,
    {
        if bytes[i] == 0 {
            assert(bytes@.contains(0u8));
            return false;
        }
        i += 1;
    }
    true
}

impl ShmFd {
    pub closed spec fn spec_fd(&self) -> i32 {
        self.fd
    }

    pub closed spec fn spec_path(&self) -> Seq<char> {
        self.path@
    }

    pub closed spec fn spec_unlinked(&self) -> bool {
        self.unlinked
    }

    /// Takes the status of `shm_open` on `path`: a descriptor if it is not
    /// negative.
    pub fn open(path: String, status: i32) -> (opened: Result<ShmFd, ShmError>)
        ensures
            status >= 0 ==> opened is Ok && opened->Ok_0.spec_fd() == status
                && opened->Ok_0.spec_path() == path@ && !opened->Ok_0.spec_unlinked(),
            status < 0 ==> opened == Err::<ShmFd, ShmError>(ShmError::Open(status)),
    {
        if status >= 0 {
            Ok(ShmFd { fd: status, path, unlinked: false })
        } else {
            Err(ShmError::Open(status))
        }
    }

    /// Takes the status of `shm_unlink` on this object's name: on zero the
    /// name is gone, otherwise nothing has changed.
    pub fn unlink(&mut self, status: i32) -> (done: Result<(), ShmError>)
        ensures
            final(self).spec_fd() == old(self).spec_fd(),
            final(self).spec_path() == old(self).spec_path(),
            status == 0 ==> done is Ok && final(self).spec_unlinked(),
            status != 0 ==> done == Err::<(), ShmError>(ShmError::Unlink(status))
                && final(self).spec_unlinked() == old(self).spec_unlinked(),
    {
        if status == 0 {
            self.unlinked = true;
            Ok(())
        } else {
            Err(ShmError::Unlink(status))
        }
    }

    #[verifier::when_used_as_spec(spec_unlinked)]
    pub fn is_unlinked(&self) -> (unlinked: bool)
        ensures
            unlinked == self.spec_unlinked(),
    {
        self.unlinked
    }

    /// Takes the status of `ftruncate` on this object's descriptor.
    pub fn truncate(&mut self, status: i32) -> (done: Result<(), ShmError>)
        ensures
            *final(self) == *old(self),
            status == 0 ==> done is Ok,
            status != 0 ==> done == Err::<(), ShmError>(ShmError::Truncate(status)),
    {
        if status == 0 {
            Ok(())
        } else {
            Err(ShmError::Truncate(status))
        }
    }

    #[verifier::when_used_as_spec(spec_fd)]
    pub fn as_raw(&self) -> (fd: i32)
        ensures
            fd == self.spec_fd(),
    {
        self.fd
    }

    pub fn path_ref(&self) -> (path: &str)
        ensures
            path@ == self.spec_path(),
    {
        self.path.as_str()
    }

    /// Gives the object up. The name is removed first if it still exists, so
    /// that no name outlives its descriptor.
    pub fn release(self) -> (plan: ShmRelease)
        ensures
            plan.fd == self.spec_fd(),
            self.spec_unlinked() ==> plan.unlink is None,
            !self.spec_unlinked() ==> plan.unlink is Some
                && plan.unlink->Some_0@ == self.spec_path(),
    {
        if self.unlinked {
            ShmRelease { unlink: None, fd: self.fd }
        } else {
            ShmRelease { unlink: Some(self.path), fd: self.fd }
        }
    }
}

} // verus!
