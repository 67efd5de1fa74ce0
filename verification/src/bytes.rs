//! Little-endian integers and byte strings.
use vstd::arithmetic::power::*;
use vstd::prelude::*;

verus! {

/// The number that a byte string denotes, least significant byte first.
pub open spec fn le_value(s: Seq<u8>) -> nat
    decreases s.len(),
{
    if s.len() == 0 {
        0
    } else {
        s[0] as nat + 256 * le_value(s.drop_first())
    }
}

/// The `len` low-order bytes of `n`, least significant byte first.
pub open spec fn le_bytes(n: nat, len: nat) -> Seq<u8>
    decreases len,
{
    if len == 0 {
        Seq::empty()
    } else {
        seq![(n % 256) as u8] + le_bytes(n / 256, (len - 1) as nat)
    }
}

/// The eight bytes of a 64-bit integer.
pub open spec fn u64_bytes(x: u64) -> Seq<u8> {
    le_bytes(x as nat, 8)
}

/// The 64-bit integer that eight bytes denote.
pub open spec fn u64_of(s: Seq<u8>) -> u64 {
    le_value(s) as u64
}

/// `n` zero bytes.
pub open spec fn zeros(n: nat) -> Seq<u8> {
    Seq::new(n, |i: int| 0u8)
}

pub proof fn lemma_le_value_bound(s: Seq<u8>)
    ensures
        le_value(s) < pow(256, s.len()),
    decreases s.len(),
{
    reveal(pow);
    if s.len() > 0 {
        lemma_le_value_bound(s.drop_first());
    }
}

pub proof fn lemma_le_bytes_len(n: nat, len: nat)
    ensures
        le_bytes(n, len).len() == len,
    decreases len,
{
    if len > 0 {
        lemma_le_bytes_len(n / 256, (len - 1) as nat);
    }
}

/// Writing an integer that fits in `len` bytes and reading it back gives the integer.
pub proof fn lemma_le_round_trip(n: nat, len: nat)
    requires
        n < pow(256, len),
    ensures
        le_bytes(n, len).len() == len,
        le_value(le_bytes(n, len)) == n,
    decreases len,
{
    reveal(pow);
    if len > 0 {
        let rest = le_bytes(n / 256, (len - 1) as nat);
        assert(n / 256 < pow(256, (len - 1) as nat));
        lemma_le_round_trip(n / 256, (len - 1) as nat);
        assert(le_bytes(n, len).drop_first() =~= rest);
    }
}

/// Every 64-bit integer is read back from its eight bytes.
pub proof fn lemma_u64_round_trip(x: u64)
    ensures
        u64_bytes(x).len() == 8,
        u64_of(u64_bytes(x)) == x,
{
    assert(pow(256, 8) == 0x1_0000_0000_0000_0000) by {
        reveal(pow);
        reveal_with_fuel(pow, 9);
    }
    lemma_le_round_trip(x as nat, 8);
}

/// The integer at `off`; eight bytes, least significant first.
pub fn u64_at(data: &[u8], off: usize) -> (r: u64)
    requires
        off + 8 <= data.len(),
    ensures
        r == u64_of(data@.subrange(off as int, off + 8)),
        r == le_value(data@.subrange(off as int, off + 8)),
{
    let ghost s = data@.subrange(off as int, off + 8);
    let mut acc: u64 = 0;
    let mut i: usize = 8;
    proof {
        reveal(pow);
        assert(s.subrange(8, 8) =~= Seq::empty());
    }
    while i > 0
        invariant
            i <= 8,
            off + 8 <= data.len(),
            s == data@.subrange(off as int, off + 8),
            acc == le_value(s.subrange(i as int, 8)),
        decreases i,
    {
        proof {
            let tail = s.subrange(i - 1, 8);
            assert(tail.drop_first() =~= s.subrange(i as int, 8));
            assert(tail[0] == data@[off + i - 1]);
            lemma_le_value_bound(tail);
            assert(pow(256, tail.len()) <= 0x1_0000_0000_0000_0000) by {
                lemma_pow_increases(256, tail.len(), 8);
                reveal(pow);
                reveal_with_fuel(pow, 9);
            }
        }
        i = i - 1;
        acc = acc * 256 + data[off + i] as u64;
    }
    assert(s.subrange(0, 8) =~= s);
    acc
}

/// The 16-bit integer at `off`; two bytes, least significant first.
pub fn u16_at(data: &[u8], off: usize) -> (r: u16)
    requires
        off + 2 <= data.len(),
    ensures
        r == le_value(data@.subrange(off as int, off + 2)),
{
    proof {
        let s = data@.subrange(off as int, off + 2);
        assert(s.drop_first()[0] == s[1]);
        assert(s.drop_first().drop_first().len() == 0);
        reveal_with_fuel(le_value, 3);
    }
    data[off] as u16 + 256 * data[off + 1] as u16
}

/// Appends a byte string.
pub fn append(out: &mut Vec<u8>, bytes: &[u8])
    ensures
        final(out)@ == old(out)@ + bytes@,
{
    out.extend_from_slice(bytes);
}

/// Appends the `len` low-order bytes of `n`, least significant first.
pub fn append_le(out: &mut Vec<u8>, n: u128, len: usize)
    ensures
        final(out)@ == old(out)@ + le_bytes(n as nat, len as nat),
{
    let ghost start = out@;
    let mut rest: u128 = n;
    let mut left: usize = len;
    assert(out@ + le_bytes(rest as nat, left as nat) =~= start + le_bytes(n as nat, len as nat));
    while left > 0
        invariant
            out@ + le_bytes(rest as nat, left as nat) == start + le_bytes(n as nat, len as nat),
        decreases left,
    {
        let ghost before = out@;
        out.push((rest % 256) as u8);
        proof {
            let tail = le_bytes((rest / 256) as nat, (left - 1) as nat);
            assert(before + (seq![(rest % 256) as u8] + tail) =~= out@ + tail);
        }
        rest = rest / 256;
        left = left - 1;
    }
    assert(out@ + le_bytes(rest as nat, 0) =~= out@);
}

/// Appends `n` zero bytes.
pub fn append_zeros(out: &mut Vec<u8>, n: usize)
    ensures
        final(out)@ == old(out)@ + zeros(n as nat),
{
    let ghost start = out@;
    let mut i: usize = 0;
    while i < n
        invariant
            i <= n,
            out@ == start + zeros(i as nat),
        decreases n - i,
    {
        out.push(0);
        i = i + 1;
        assert(out@ =~= start + zeros(i as nat));
    }
}

/// Whether `data` holds `expected` at `off`.
pub fn holds_at(data: &[u8], off: usize, expected: &[u8]) -> (r: bool)
    requires
        off + expected.len() <= data.len(),
    ensures
        r == (data@.subrange(off as int, off + expected.len()) == expected@),
{
    let mut i: usize = 0;
    while i < expected.len()
        invariant
            i <= expected.len(),
            off + expected.len() <= data.len(),
            forall|j: int| 0 <= j < i ==> data@[off + j] == expected@[j],
        decreases expected.len() - i,
    {
        if data[off + i] != expected[i] {
            assert(data@.subrange(off as int, off + expected.len())[i as int] != expected@[
                i as int
            ]);
            return false;
        }
        i = i + 1;
    }
    assert(data@.subrange(off as int, off + expected.len()) =~= expected@);
    true
}

/// A copy of the bytes from `from` on.
pub fn rest_of(data: &[u8], from: usize) -> (r: Vec<u8>)
    requires
        from <= data.len(),
    ensures
        r@ == data@.skip(from as int),
{
    let mut out: Vec<u8> = Vec::new();
    let mut i: usize = from;
    while i < data.len()
        invariant
            from <= i <= data.len(),
            out@ == data@.subrange(from as int, i as int),
        decreases data.len() - i,
    {
        out.push(data[i]);
        i = i + 1;
        assert(out@ =~= data@.subrange(from as int, i as int));
    }
    assert(out@ =~= data@.skip(from as int));
    out
}

/// A copy.
pub fn copied(data: &[u8]) -> (r: Vec<u8>)
    ensures
        r@ == data@,
{
    rest_of(data, 0)
}

} // verus!
