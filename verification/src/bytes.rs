//! Byte-buffer helpers shared by the report builders.

use vstd::prelude::*;

verus! {

/// `n` zero bytes.
pub open spec fn zeros(n: nat) -> Seq<u8> {
    Seq::new(n, |i: int| 0u8)
}

/// `s` with the bytes of `b` written over it from position `at` on.
pub open spec fn splice(s: Seq<u8>, at: int, b: Seq<u8>) -> Seq<u8> {
    s.take(at) + b + s.skip(at + b.len())
}

/// Little-endian low byte of a 16-bit value.
pub open spec fn lo(v: u16) -> u8 {
    (v % 256) as u8
}

/// Little-endian high byte of a 16-bit value.
pub open spec fn hi(v: u16) -> u8 {
    (v / 256) as u8
}

/// Copies the first `count` bytes of `src` into `buf` starting at `at`.
pub fn write_prefix(buf: &mut Vec<u8>, at: usize, src: &[u8], count: usize)
    requires
        count <= src@.len(),
        at + count <= old(buf)@.len(),
    ensures
        final(buf)@ == splice(old(buf)@, at as int, src@.take(count as int)),
{
    let len = buf.len();
    let mut i: usize = 0;
    while i < count
        invariant
            len == old(buf)@.len(),
            count <= src@.len(),
            at + count <= old(buf)@.len(),
            i <= count,
            buf@.len() == old(buf)@.len(),
            forall|k: int| 0 <= k < at ==> buf@[k] == old(buf)@[k],
            forall|k: int| at <= k < at + i ==> buf@[k] == src@[k - at],
            forall|k: int| at + i <= k < buf@.len() ==> buf@[k] == old(buf)@[k],
        decreases count - i,
    {
        buf.set(at + i, src[i]);
        i = i + 1;
    }
    assert(buf@ =~= splice(old(buf)@, at as int, src@.take(count as int)));
}

/// A buffer of `n` zero bytes.
pub fn zeroed(n: usize) -> (v: Vec<u8>)
    ensures
        v@ == zeros(n as nat),
{
    let v = vec![0u8; n];
    assert(v@ =~= zeros(n as nat));
    v
}

} // verus!
