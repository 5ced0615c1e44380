//! Decoding of the raw wait status of a reaped child.

use vstd::prelude::*;

verus! {

/// Signal number of an erroneous arithmetic operation.
pub const SIGFPE: i32 = 8;

/// Signal number of an invalid memory reference.
pub const SIGSEGV: i32 = 11;

/// Signal number of the hard kill.
pub const SIGKILL: i32 = 9;

/// The low seven bits of a wait status: the terminating signal, if any.
pub open spec fn term_signal(raw: i32) -> i32 {
    raw & 0x7f
}

/// Whether a wait status says that a signal ended the child: its low seven
/// bits are neither 0 (a normal exit) nor 0x7f (a stop).
pub open spec fn signaled(raw: i32) -> bool {
    0 < term_signal(raw) < 0x7f
}

/// `libc::WIFSIGNALED` computes `((status & 0x7f) + 1) as i8 >= 2`: true
/// exactly when the low seven bits are in `1..=0x7e`.
pub assume_specification[ libc::WIFSIGNALED ](status: i32) -> (r: bool)
    ensures
        r == signaled(status),
;

/// `libc::WTERMSIG` computes `status & 0x7f`.
pub assume_specification[ libc::WTERMSIG ](status: i32) -> (r: i32)
    ensures
        r == term_signal(status),
;

/// The signal that ended the child, if one did.
pub fn killing_signal(raw: i32) -> (r: Option<i32>)
    ensures
        r == (if signaled(raw) {
            Some(term_signal(raw))
        } else {
            None
        }),
{
    if libc::WIFSIGNALED(raw) {
        Some(libc::WTERMSIG(raw))
    } else {
        None
    }
}

/// A wait status of zero names no signal, and a status whose low seven bits
/// name a signal is not zero.
pub proof fn lemma_signaled_nonzero(raw: i32)
    ensures
        signaled(raw) ==> raw != 0,
        0 <= term_signal(raw) <= 0x7f,
{
    assert(0i32 & 0x7f == 0) by (bit_vector);
    assert(0 <= raw & 0x7f <= 0x7f) by (bit_vector);
}

/// The byte-sized test `((raw & 0x7f) + 1) as i8 >= 2` and the range test of
/// `signaled` agree on every status.
pub proof fn lemma_signaled_as_byte_test(raw: i32)
    ensures
        signaled(raw) == ((((raw & 0x7f) + 1) as i8) >= 2),
{
    assert((0 < (raw & 0x7f) < 0x7f) == ((((raw & 0x7f) + 1) as i8) >= 2)) by (bit_vector);
}

} // verus!
