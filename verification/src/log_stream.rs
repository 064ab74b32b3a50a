//! Byte counts of a network stream, and the warning written when reading from it
//! fails.

use vstd::prelude::*;

use crate::text::{chars_of, decimal, push_all, push_decimal};

verus! {

/// Byte counts of a stream.
#[derive(Debug, Clone, Copy, PartialEq, Eq, Structural)]
pub struct Metrics {
    /// Total number of bytes read.
    pub total_read: u64,
    /// Total number of bytes written.
    pub total_written: u64,
}

/// `a` plus `b`, or the largest `u64` where that is larger.
pub open spec fn saturating_plus(a: u64, b: int) -> u64 {
    if a + b > u64::MAX {
        u64::MAX
    } else {
        (a + b) as u64
    }
}

impl Metrics {
    /// No bytes read or written yet.
    pub fn new() -> (r: Metrics)
        ensures
            r.total_read == 0 && r.total_written == 0,
    {
        Metrics { total_read: 0, total_written: 0 }
    }

    /// Counts `n` more bytes read; the count stops at the largest `u64`.
    pub fn add_read(&mut self, n: usize)
        ensures
            final(self).total_read == saturating_plus(old(self).total_read, n as int),
            final(self).total_written == old(self).total_written,
    {
        self.total_read = self.total_read.saturating_add(n as u64);
    }

    /// Counts `n` more bytes written; the count stops at the largest `u64`.
    pub fn add_written(&mut self, n: usize)
        ensures
            final(self).total_written == saturating_plus(old(self).total_written, n as int),
            final(self).total_read == old(self).total_read,
    {
        self.total_written = self.total_written.saturating_add(n as u64);
    }
}

/// The warning written when reading from the stream to `peer` fails with `err`.
pub open spec fn read_error_text(peer: Seq<char>, m: Metrics, err: Seq<char>) -> Seq<char> {
    "Read error on stream "@ + peer + " after reading "@ + decimal(m.total_read as nat)
        + " and writing "@ + decimal(m.total_written as nat) + " bytes: "@ + err + "."@
}

/// The warning written when reading from the stream to `peer` fails with `err`,
/// with the bytes read and written so far.
pub fn read_error_message(peer: &str, metrics: &Metrics, err: &str) -> (r: String)
    ensures
        r@ == read_error_text(peer@, *metrics, err@),
{
    let mut r = "Read error on stream ".to_owned();
    push_all(&mut r, &chars_of(peer));
    push_all(&mut r, &chars_of(" after reading "));
    push_decimal(&mut r, metrics.total_read);
    push_all(&mut r, &chars_of(" and writing "));
    push_decimal(&mut r, metrics.total_written);
    push_all(&mut r, &chars_of(" bytes: "));
    push_all(&mut r, &chars_of(err));
    r.push('.');
    proof {
        reveal_strlit(".");
        assert(r@ =~= read_error_text(peer@, *metrics, err@));
    }
    r
}

} // verus!
