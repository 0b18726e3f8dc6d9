//! The records of the process and system queries (times, resource usage, CPUs), the clocks, and
//! the decisions taken while reading a variable-length value out of libuv.
use vstd::prelude::*;
use crate::error::{decodes_to, uvret, Error};

verus! {

/// Data type for storing times.
#[derive(Clone, Copy, Debug, PartialEq, Eq, Structural)]
pub struct TimeVal {
    /// Seconds.
    pub sec: i64,
    /// Microseconds.
    pub usec: i64,
}

/// Data type for resource usage results.
#[derive(Clone, Copy, Debug, PartialEq, Eq, Structural)]
pub struct ResourceUsage {
    /// user CPU time used
    pub usertime: TimeVal,
    /// system CPU time used
    pub systime: TimeVal,
    /// maximum resident set size
    pub maxrss: u64,
    /// integral shared memory size (no Windows support)
    pub ixrss: u64,
    /// integral unshared data size (no Windows support)
    pub idrss: u64,
    /// integral unshared stack size (no Windows support)
    pub isrss: u64,
    /// page reclaims (soft page faults) (no Windows support)
    pub minflt: u64,
    /// page faults (hard page faults)
    pub majflt: u64,
    /// swaps (no Windows support)
    pub nswap: u64,
    /// block input operations
    pub inblock: u64,
    /// block output operations
    pub oublock: u64,
    /// IPC messages sent (no windows support)
    pub msgsnd: u64,
    /// IPC messages received (no Windows support)
    pub msgrcv: u64,
    /// signals received (no Windows support)
    pub nsignals: u64,
    /// voluntary context switches (no Windows support)
    pub nvcsw: u64,
    /// involuntary context switches (no Windows support)
    pub nivcsw: u64,
}

/// Data type for CPU information.
#[derive(Debug)]
pub struct CpuInfo {
    /// The model of the CPU.
    pub model: String,
    /// The speed of the CPU, in MHz.
    pub speed: i32,
    /// Milliseconds spent in user mode.
    pub user_time: u64,
    /// Milliseconds spent in user mode at low priority.
    pub nice_time: u64,
    /// Milliseconds spent in system mode.
    pub sys_time: u64,
    /// Milliseconds spent idle.
    pub idle_time: u64,
    /// Milliseconds spent servicing interrupts.
    pub irq_time: u64,
}

/// Y2K38-safe data type for storing times with nanosecond resolution.
#[derive(Clone, Copy, Debug, PartialEq, Eq, Structural)]
pub struct TimeSpec64 {
    /// Seconds.
    pub sec: i64,
    /// Nanoseconds.
    pub nsec: i32,
}

/// Clock source for clock_gettime().
#[derive(Clone, Copy, Debug, PartialEq, Eq, Structural)]
pub enum ClockId {
    /// A clock that counts from an arbitrary point in the past and never jumps back.
    Monotonic,
    /// The real-time clock, counting from the UNIX epoch.
    Realtime,
}

impl ClockId {
    /// libuv's integer for the clock (`uv_clock_id`).
    pub open spec fn spec_code(self) -> u32 {
        match self {
            ClockId::Monotonic => 0,
            ClockId::Realtime => 1,
        }
    }

    /// libuv's integer for the clock (`uv_clock_id`).
    pub fn code(self) -> (r: u32)
        ensures
            r == self.spec_code(),
    {
        match self {
            ClockId::Monotonic => 0,
            ClockId::Realtime => 1,
        }
    }
}

/// The size of the first buffer offered for the process title.
pub open spec fn spec_first_title_size() -> usize {
    32
}

/// The size of the first buffer offered for the process title: the sizes start from 16 and are
/// doubled before every attempt.
pub fn first_title_size() -> (r: usize)
    ensures
        r == spec_first_title_size(),
{
    16 * 2
}

/// What to do after libuv was asked for the process title with a buffer.
#[derive(Clone, Copy, Debug, PartialEq, Eq, Structural)]
pub enum TitleStep {
    /// The title is in the buffer.
    Done,
    /// The title did not fit: ask again with a buffer of this size.
    Retry(usize),
    /// The title cannot be read.
    Fail(Error),
}

/// The next step after asking for the process title with a buffer of `size` bytes, given the
/// status of the call and whether `setup_args()` has stored the program arguments. Done when
/// the call succeeded. libuv answers `ENOBUFS` both when the title does not fit and when the
/// arguments were never stored: in the first case the next attempt gets a buffer twice as large,
/// in the second the title cannot be read and the error is `ENOBUFS`. Any other error is
/// reported as it is. A doubled buffer must stay within what a `Vec` can hold.
pub fn process_title_step(size: usize, status: i32, args_set_up: bool) -> (r: TitleStep)
    requires
        status == Error::ENOBUFS.spec_code() && args_set_up ==> 2 * size <= isize::MAX,
    ensures
        status >= 0 ==> r == TitleStep::Done,
        status == Error::ENOBUFS.spec_code() && args_set_up ==> r == TitleStep::Retry(
            (2 * size) as usize,
        ),
        status == Error::ENOBUFS.spec_code() && !args_set_up ==> r == TitleStep::Fail(
            Error::ENOBUFS,
        ),
        status < 0 && status != Error::ENOBUFS.spec_code() ==> (r matches TitleStep::Fail(e)
            && decodes_to(status, e) && e != Error::ENOBUFS),
{
    match uvret(status) {
        Ok(()) => TitleStep::Done,
        Err(e) => {
            if e == Error::ENOBUFS {
                proof {
                    crate::error::lemma_known_code(status, e);
                }
                if args_set_up {
                    TitleStep::Retry(size * 2)
                } else {
                    TitleStep::Fail(Error::ENOBUFS)
                }
            } else {
                proof {
                    if status == Error::ENOBUFS.spec_code() {
                        crate::error::lemma_code_roundtrip(Error::ENOBUFS, e);
                    }
                }
                TitleStep::Fail(e)
            }
        },
    }
}

/// Whether the call that asks libuv for the length of a value (by offering no buffer) allows
/// the value to be read: it does when the call succeeded or reported only that the buffer was
/// too small (`ENOBUFS`), in which case libuv has written the length that is needed.
pub fn required_size_result(status: i32) -> (r: Result<(), Error>)
    ensures
        r is Ok <==> (status >= 0 || status == Error::ENOBUFS.spec_code()),
        r matches Err(e) ==> decodes_to(status, e),
{
    match uvret(status) {
        Ok(()) => Ok(()),
        Err(e) => {
            if e == Error::ENOBUFS {
                proof {
                    crate::error::lemma_known_code(status, e);
                }
                Ok(())
            } else {
                proof {
                    if status == Error::ENOBUFS.spec_code() {
                        crate::error::lemma_code_roundtrip(Error::ENOBUFS, e);
                    }
                }
                Err(e)
            }
        },
    }
}

} // verus!
