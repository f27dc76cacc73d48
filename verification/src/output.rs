//! Reusable output buffer with single-slot, clear-then-append semantics.
//!
//! The boundary hands strings to the host as borrowed, null-terminated
//! pointers. Each call overwrites the one slot: the buffer is cleared, the
//! content bytes are copied in, and a single terminating zero byte is
//! appended. The reported length excludes the terminator and is zero while
//! nothing has been produced yet.

use vstd::prelude::*;

verus! {

use vstd::string::StringSliceAdditionalSpecFns;

/// One growable byte slot. The host reads it through a borrowed pointer that
/// stays valid until the next call that fills the slot.
pub struct OutputBuffer {
    bytes: Vec<u8>,
}

impl View for OutputBuffer {
    type V = Seq<u8>;

    closed spec fn view(&self) -> Seq<u8> {
        self.bytes@
    }
}

impl OutputBuffer {
    /// A fresh slot that has produced nothing yet.
    pub fn new() -> (r: OutputBuffer)
        ensures
            r@ == Seq::<u8>::empty(),
    {
        OutputBuffer { bytes: Vec::new() }
    }

    /// The stored bytes: the last content followed by its terminator, or
    /// nothing while the slot has produced nothing yet. The boundary hands
    /// the host a pointer to exactly these bytes.
    pub fn as_bytes(&self) -> (r: &[u8])
        ensures
            r@ == self@,
    {
        self.bytes.as_slice()
    }

    /// Whether some call has filled the slot: the terminator is then present.
    pub open spec fn produced(&self) -> bool {
        self@.len() > 0
    }

    /// The content bytes of the last call, without the terminator.
    pub open spec fn slot(&self) -> Seq<u8> {
        if self.produced() {
            self@.drop_last()
        } else {
            Seq::<u8>::empty()
        }
    }
}

/// Clears the slot, copies `content` in, and appends the zero terminator.
pub fn output_vec(buf: &mut OutputBuffer, content: &[u8])
    requires
        content@.len() < usize::MAX,
    ensures
        final(buf)@ == content@.push(0u8),
        final(buf).slot() == content@,
{
    buf.bytes.clear();
    buf.bytes.extend_from_slice(content);
    buf.bytes.push(0);
    proof {
        assert(buf@ =~= content@.push(0u8));
        assert(buf@.drop_last() =~= content@);
    }
}

/// Fills the slot with the bytes of `s`, zero-terminated.
pub fn output_str(buf: &mut OutputBuffer, s: &str)
    requires
        s.spec_bytes().len() < usize::MAX,
    ensures
        final(buf)@ == s.spec_bytes().push(0u8),
        final(buf).slot() == s.spec_bytes(),
{
    output_vec(buf, s.as_bytes());
}

/// The byte length of the last produced string, excluding the terminator, or
/// zero while nothing has been produced on this buffer.
pub fn get_buf_len(buf: &OutputBuffer) -> (r: usize)
    ensures
        r == buf.slot().len(),
        buf.produced() ==> r == buf@.len() - 1,
{
    let n = buf.bytes.len();
    if n == 0 {
        0
    } else {
        n - 1
    }
}

/// After producing `content`, the slot holds exactly `content`, the reported
/// length equals `content`'s byte length, and the stored bytes are `content`
/// followed by one zero byte.
pub proof fn lemma_slot_after_produce(buf: OutputBuffer, content: Seq<u8>)
    requires
        buf@ == content.push(0u8),
    ensures
        buf.slot() == content,
        buf.slot().len() == content.len(),
        buf@.len() == content.len() + 1,
        buf@[content.len() as int] == 0u8,
        forall|i: int| 0 <= i < content.len() ==> buf@[i] == content[i],
{
    assert(buf@.drop_last() =~= content);
}

} // verus!
