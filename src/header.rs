//! The datagram header: a sequence number in four big-endian bytes.
use vstd::prelude::*;

verus! {

/// Number of bytes the sequence number takes at the front of a datagram.
pub const HEADER_LEN: usize = 4;

/// The big-endian encoding of `n`: most significant byte first.
pub open spec fn be_bytes(n: u32) -> Seq<u8> {
    seq![
        (n / 0x100_0000) as u8,
        ((n / 0x1_0000) % 0x100) as u8,
        ((n / 0x100) % 0x100) as u8,
        (n % 0x100) as u8,
    ]
}

/// The number that four big-endian bytes encode.
pub open spec fn be_value(b: Seq<u8>) -> int
    recommends
        b.len() == 4,
{
    b[0] * 0x100_0000 + b[1] * 0x1_0000 + b[2] * 0x100 + b[3]
}

/// `data` with its first four bytes replaced by the encoding of `seq`.
pub open spec fn with_header(data: Seq<u8>, seq: u32) -> Seq<u8> {
    be_bytes(seq) + data.subrange(4, data.len() as int)
}

/// Decoding a header gives back the sequence number it was made from, so a
/// receiver can order the datagrams.
pub proof fn lemma_header_round_trip(n: u32)
    ensures
        be_value(be_bytes(n)) == n,
        be_bytes(n).len() == 4,
{
    let b = be_bytes(n);
    let a = n as int;
    assert(b[0] == a / 0x100_0000);
    assert(b[1] == (a / 0x1_0000) % 0x100);
    assert(b[2] == (a / 0x100) % 0x100);
    assert(b[3] == a % 0x100);
    assert(a == (a / 0x100_0000) * 0x100_0000 + ((a / 0x1_0000) % 0x100) * 0x1_0000 + ((a
        / 0x100) % 0x100) * 0x100 + a % 0x100) by (nonlinear_arith)
        requires
            0 <= a,
    ;
}

/// Overwrites the first four bytes of `data` with the big-endian encoding of
/// `seq`; the other bytes and the length stay as they were.
pub fn write_sequence_number(data: &mut Vec<u8>, seq: u32)
    requires
        old(data)@.len() >= 4,
    ensures
        final(data)@ == with_header(old(data)@, seq),
        final(data)@.len() == old(data)@.len(),
        final(data)@.subrange(0, 4) == be_bytes(seq),
{
    data.set(0, (seq / 0x100_0000) as u8);
    data.set(1, ((seq / 0x1_0000) % 0x100) as u8);
    data.set(2, ((seq / 0x100) % 0x100) as u8);
    data.set(3, (seq % 0x100) as u8);
    assert(data@ =~= with_header(old(data)@, seq));
    assert(data@.subrange(0, 4) =~= be_bytes(seq));
}

} // verus!
