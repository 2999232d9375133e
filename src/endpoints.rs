//! The two ends of a pipe as descriptor numbers, and the outcome of one request
//! to the operating system for a new pipe.
use vstd::prelude::*;

verus! {

/// Two descriptor numbers that can name the read side and the write side of
/// one pipe: both are open descriptors, hence non-negative, and they differ.
pub open spec fn is_pair(read_fd: int, write_fd: int) -> bool {
    &&& 0 <= read_fd
    &&& 0 <= write_fd
    &&& read_fd != write_fd
}

/// What one request for a pipe comes to: on status 0 the pair that the OS
/// filled in, read side first; on any other status the error number that the
/// OS reported, unchanged.
pub open spec fn outcome_of(status: int, read_fd: int, write_fd: int, errno: int) -> Result<
    (int, int),
    int,
> {
    if status == 0 {
        Ok((read_fd, write_fd))
    } else {
        Err(errno)
    }
}

/// The read side and the write side of one pipe. Both are always there, and
/// they are always two distinct open descriptors.
#[derive(Debug)]
pub struct PipeFds {
    read_fd: i32,
    write_fd: i32,
}

impl View for PipeFds {
    type V = (int, int);

    /// The read descriptor, then the write descriptor.
    closed spec fn view(&self) -> (int, int) {
        (self.read_fd as int, self.write_fd as int)
    }
}

impl PipeFds {
    #[verifier::type_invariant]
    spec fn matched(self) -> bool {
        is_pair(self.read_fd as int, self.write_fd as int)
    }

    /// The descriptor to read from.
    pub fn read_fd(&self) -> (r: i32)
        ensures
            r as int == self@.0,
            is_pair(self@.0, self@.1),
    {
        proof {
            use_type_invariant(self);
        }
        self.read_fd
    }

    /// The descriptor to write to.
    pub fn write_fd(&self) -> (r: i32)
        ensures
            r as int == self@.1,
            is_pair(self@.0, self@.1),
    {
        proof {
            use_type_invariant(self);
        }
        self.write_fd
    }
}

/// An operating-system error, carried by its error number.
#[derive(Debug, Clone, Copy, PartialEq, Eq, Structural)]
pub struct OsError {
    pub code: i32,
}

/// A result seen as plain values: the pair of descriptors, or the error number.
pub open spec fn result_view(r: Result<PipeFds, OsError>) -> Result<(int, int), int> {
    match r {
        Ok(p) => Ok(p@),
        Err(e) => Err(e.code as int),
    }
}

/// Turns the OS's answer to a pipe request into a pipe or an error.
///
/// `status` is what the request returned, `fds` the two descriptors that it
/// filled in (read side first) and `errno` the last error that the OS
/// reported after it. On status 0 the OS has handed out two open descriptors.
pub fn pipe_from_raw(status: i32, fds: [i32; 2], errno: i32) -> (r: Result<PipeFds, OsError>)
    requires
        status == 0 ==> is_pair(fds[0] as int, fds[1] as int),
    ensures
        result_view(r) == outcome_of(status as int, fds[0] as int, fds[1] as int, errno as int),
        r is Ok <==> status == 0,
        r matches Ok(p) ==> p@ == (fds[0] as int, fds[1] as int) && is_pair(p@.0, p@.1),
        r matches Err(e) ==> e.code == errno,
{
    if status == 0 {
        Ok(PipeFds { read_fd: fds[0], write_fd: fds[1] })
    } else {
        Err(OsError { code: errno })
    }
}

} // verus!
