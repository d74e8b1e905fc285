//! Byte-string arithmetic: big-endian interpretation of byte sequences and
//! the small fixed-width encodings used by the wire format and transcript.

use vstd::prelude::*;

verus! {

/// The value of a byte sequence read as a big-endian unsigned integer.
pub open spec fn be_val(s: Seq<u8>) -> nat
    decreases s.len(),
{
    if s.len() == 0 {
        0
    } else {
        be_val(s.drop_last()) * 256 + s.last() as nat
    }
}

/// A sequence of zero bytes has value zero.
pub proof fn lemma_be_val_all_zero(s: Seq<u8>)
    requires
        forall|i: int| 0 <= i < s.len() ==> s[i] == 0u8,
    ensures
        be_val(s) == 0,
    decreases s.len(),
{
    if s.len() > 0 {
        lemma_be_val_all_zero(s.drop_last());
    }
}

/// A byte sequence with value zero is all zeros.
pub proof fn lemma_be_val_zero_is_all_zero(s: Seq<u8>)
    requires
        be_val(s) == 0,
    ensures
        forall|i: int| 0 <= i < s.len() ==> s[i] == 0u8,
    decreases s.len(),
{
    if s.len() > 0 {
        assert(be_val(s.drop_last()) * 256 + s.last() == 0);
        lemma_be_val_zero_is_all_zero(s.drop_last());
        assert(forall|i: int| 0 <= i < s.len() - 1 ==> s[i] == s.drop_last()[i]);
    }
}

/// The big-endian value determines the bytes, once the length is fixed.
pub proof fn lemma_be_val_injective(a: Seq<u8>, b: Seq<u8>)
    requires
        a.len() == b.len(),
        be_val(a) == be_val(b),
    ensures
        a == b,
    decreases a.len(),
{
    if a.len() > 0 {
        let qa = be_val(a.drop_last());
        let qb = be_val(b.drop_last());
        assert(qa * 256 + a.last() == qb * 256 + b.last());
        assert(a.last() < 256 && b.last() < 256);
        assert(qa == qb && a.last() == b.last()) by (nonlinear_arith)
            requires
                qa * 256 + a.last() == qb * 256 + b.last(),
                a.last() < 256,
                b.last() < 256,
        ;
        lemma_be_val_injective(a.drop_last(), b.drop_last());
        assert(a =~= a.drop_last().push(a.last()));
        assert(b =~= b.drop_last().push(b.last()));
    }
}

/// The two-byte big-endian encoding of a value below 2^16.
pub open spec fn u16be(n: nat) -> Seq<u8> {
    seq![((n / 256) % 256) as u8, (n % 256) as u8]
}

/// An eight-byte little-endian encoding of a 64-bit value.
pub open spec fn u64le(n: nat) -> Seq<u8> {
    Seq::new(8, |i: int| ((n / pow256(i as nat)) % 256) as u8)
}

/// 256 raised to a small power; used only to spell out `u64le`.
pub open spec fn pow256(k: nat) -> nat
    decreases k,
{
    if k == 0 {
        1
    } else {
        256 * pow256((k - 1) as nat)
    }
}

/// `u16be` really is the big-endian encoding: reading it back gives `n`.
pub proof fn lemma_u16be_val(n: nat)
    requires
        n < 65536,
    ensures
        be_val(u16be(n)) == n,
{
    let u = u16be(n);
    assert(u.drop_last() =~= seq![u[0]]);
    assert(seq![u[0]].drop_last() =~= Seq::<u8>::empty());
    assert(be_val(Seq::<u8>::empty()) == 0);
    assert(be_val(seq![u[0]]) == u[0] as nat);
    assert(be_val(u) == (u[0] as nat) * 256 + u[1] as nat);
    assert((n / 256) % 256 == n / 256) by (nonlinear_arith)
        requires
            n < 65536,
    ;
    assert(n / 256 * 256 + n % 256 == n) by (nonlinear_arith);
}

/// Append the two-byte big-endian encoding of `x` to `out`.
pub fn push_u16be(out: &mut Vec<u8>, x: u16)
    ensures
        final(out)@ == old(out)@ + u16be(x as nat),
{
    out.push((x / 256) as u8);
    out.push((x % 256) as u8);
    proof {
        assert(out@ =~= old(out)@ + u16be(x as nat));
    }
}

/// Read a two-byte big-endian value.
pub fn read_u16be(b0: u8, b1: u8) -> (r: u16)
    ensures
        r as nat == be_val(seq![b0, b1]),
        u16be(r as nat) == seq![b0, b1],
{
    let r: u16 = (b0 as u16) * 256 + (b1 as u16);
    proof {
        let s = seq![b0, b1];
        assert(s.drop_last() =~= seq![b0]);
        assert(seq![b0].drop_last() =~= Seq::<u8>::empty());
        assert(be_val(Seq::<u8>::empty()) == 0);
        assert(be_val(seq![b0]) == b0 as nat);
        assert(be_val(s) == (b0 as nat) * 256 + b1);
        assert(u16be(r as nat) =~= seq![b0, b1]);
    }
    r
}

/// Append all bytes of `b` to `out`.
pub fn append_bytes(out: &mut Vec<u8>, b: &Vec<u8>)
    ensures
        final(out)@ == old(out)@ + b@,
{
    let n = b.len();
    let mut i: usize = 0;
    while i < n
        invariant
            i <= n,
            n == b@.len(),
            out@ == old(out)@ + b@.take(i as int),
        decreases n - i,
    {
        let ghost pre = out@;
        out.push(b[i]);
        proof {
            assert(out@ =~= old(out)@ + b@.take(i + 1));
        }
        i += 1;
    }
    proof {
        assert(out@ =~= old(out)@ + b@);
    }
}

/// Copy the bytes of `src` from `lo` (inclusive) to `hi` (exclusive).
pub fn copy_range(src: &Vec<u8>, lo: usize, hi: usize) -> (r: Vec<u8>)
    requires
        lo <= hi <= src@.len(),
    ensures
        r@ == src@.subrange(lo as int, hi as int),
{
    let mut r: Vec<u8> = Vec::new();
    let mut i: usize = lo;
    while i < hi
        invariant
            lo <= i <= hi <= src@.len(),
            r@ == src@.subrange(lo as int, i as int),
        decreases hi - i,
    {
        r.push(src[i]);
        proof {
            assert(r@ =~= src@.subrange(lo as int, i + 1));
        }
        i += 1;
    }
    r
}

/// Byte-for-byte equality of two byte vectors.
pub fn eq_bytes(a: &Vec<u8>, b: &Vec<u8>) -> (r: bool)
    ensures
        r == (a@ == b@),
{
    if a.len() != b.len() {
        proof {
            assert(a@ != b@);
        }
        return false;
    }
    let n = a.len();
    let mut i: usize = 0;
    while i < n
        invariant
            0 <= i <= n,
            n == a@.len() == b@.len(),
            forall|j: int| 0 <= j < i ==> a@[j] == b@[j],
        decreases n - i,
    {
        if a[i] != b[i] {
            proof {
                assert(a@[i as int] != b@[i as int]);
            }
            return false;
        }
        i += 1;
    }
    proof {
        assert(a@ =~= b@);
    }
    true
}

} // verus!
