//! The transport capability the display driver writes through.

use vstd::prelude::*;

verus! {

/// Holds when `after` is `before` extended by some prefix of `data`: the
/// written history grew by at most the bytes of one write attempt, in order.
pub open spec fn extends_by_prefix(before: Seq<u8>, after: Seq<u8>, data: Seq<u8>) -> bool {
    exists|n: int| 0 <= n <= data.len() && after == before + data.subrange(0, n)
}

/// The generic display interface trait: a sink that accepts byte buffers and
/// may fail with a transport-specific error.
///
/// An implementation must attempt to write every byte of `data`, in order, to
/// the underlying medium, and must fail rather than partially succeed
/// silently when not all bytes could be written.
pub trait Interface: Sized {
    type Error;

    /// The history of bytes this transport has put on the wire so far.
    ///
    /// The default stands for a transport that has written nothing yet and
    /// never will; an implementation whose `write` can succeed on a
    /// non-empty buffer has to supply its own history.
    open spec fn written(&self) -> Seq<u8> {
        Seq::empty()
    }

    /// Write bytes to the display.
    ///
    /// On success the written history grows by exactly `data`; on failure it
    /// grows by at most a prefix of `data`, and the transport's own error is
    /// handed back.
    fn write(&mut self, data: &[u8]) -> (result: Result<(), Self::Error>)
        ensures
            result is Ok ==> final(self).written() == old(self).written() + data@,
            result is Err ==> extends_by_prefix(old(self).written(), final(self).written(), data@),
    ;
}

} // verus!
