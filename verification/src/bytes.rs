//! Unsigned integers as bytes in base 256, most significant byte first
//! (big-endian) or least significant byte first (little-endian).
use vstd::prelude::*;

verus! {

/// 256 to the power `width`: how many values `width` bytes can tell apart.
pub open spec fn radix(width: nat) -> nat
    decreases width,
{
    if width == 0 {
        1
    } else {
        256 * radix((width - 1) as nat)
    }
}

/// The lowest `width` base-256 digits of `value`, most significant first.
pub open spec fn be_bytes(value: nat, width: nat) -> Seq<u8>
    decreases width,
{
    if width == 0 {
        Seq::empty()
    } else {
        be_bytes(value / 256, (width - 1) as nat).push((value % 256) as u8)
    }
}

/// The number that `bytes` writes in base 256, most significant digit first.
pub open spec fn be_value(bytes: Seq<u8>) -> nat
    decreases bytes.len(),
{
    if bytes.len() == 0 {
        0
    } else {
        be_value(bytes.drop_last()) * 256 + bytes.last() as nat
    }
}

/// The lowest `width` base-256 digits of `value`, least significant first.
pub open spec fn le_bytes(value: nat, width: nat) -> Seq<u8>
    decreases width,
{
    if width == 0 {
        Seq::empty()
    } else {
        seq![(value % 256) as u8] + le_bytes(value / 256, (width - 1) as nat)
    }
}

/// The number that `bytes` writes in base 256, least significant digit first.
pub open spec fn le_value(bytes: Seq<u8>) -> nat
    decreases bytes.len(),
{
    if bytes.len() == 0 {
        0
    } else {
        bytes.first() as nat + 256 * le_value(bytes.drop_first())
    }
}

/// The first powers of 256, up to the one that bounds a `u64`.
pub proof fn lemma_radix_values()
    ensures
        radix(0) == 1,
        radix(1) == 0x100,
        radix(2) == 0x1_0000,
        radix(3) == 0x100_0000,
        radix(4) == 0x1_0000_0000,
        radix(5) == 0x100_0000_0000,
        radix(6) == 0x1_0000_0000_0000,
        radix(7) == 0x100_0000_0000_0000,
        radix(8) == 0x1_0000_0000_0000_0000,
{
    reveal_with_fuel(radix, 10);
}

/// A big-endian encoding has as many bytes as were asked for.
pub proof fn lemma_be_bytes_len(value: nat, width: nat)
    ensures
        be_bytes(value, width).len() == width,
    decreases width,
{
    if width > 0 {
        lemma_be_bytes_len(value / 256, (width - 1) as nat);
    }
}

/// A little-endian encoding has as many bytes as were asked for.
pub proof fn lemma_le_bytes_len(value: nat, width: nat)
    ensures
        le_bytes(value, width).len() == width,
    decreases width,
{
    if width > 0 {
        lemma_le_bytes_len(value / 256, (width - 1) as nat);
    }
}

/// What `n` bytes write is below 256 to the power `n`.
pub proof fn lemma_be_value_bound(bytes: Seq<u8>)
    ensures
        be_value(bytes) < radix(bytes.len()),
    decreases bytes.len(),
{
    if bytes.len() > 0 {
        lemma_be_value_bound(bytes.drop_last());
    }
}

/// What `n` bytes write is below 256 to the power `n`.
pub proof fn lemma_le_value_bound(bytes: Seq<u8>)
    ensures
        le_value(bytes) < radix(bytes.len()),
    decreases bytes.len(),
{
    if bytes.len() > 0 {
        lemma_le_value_bound(bytes.drop_first());
    }
}

/// Decoding the big-endian encoding of a value that fits gives the value back.
pub proof fn lemma_be_value_of_bytes(value: nat, width: nat)
    requires
        value < radix(width),
    ensures
        be_value(be_bytes(value, width)) == value,
    decreases width,
{
    if width > 0 {
        let rest = be_bytes(value / 256, (width - 1) as nat);
        lemma_be_value_of_bytes(value / 256, (width - 1) as nat);
        assert(be_bytes(value, width).drop_last() =~= rest);
    }
}

/// Encoding what bytes write, at their own width, gives the bytes back.
pub proof fn lemma_be_bytes_of_value(bytes: Seq<u8>)
    ensures
        be_bytes(be_value(bytes), bytes.len()) == bytes,
    decreases bytes.len(),
{
    if bytes.len() > 0 {
        lemma_be_bytes_of_value(bytes.drop_last());
        assert(bytes.drop_last().push(bytes.last()) =~= bytes);
    } else {
        assert(bytes =~= Seq::<u8>::empty());
    }
}

/// Decoding the little-endian encoding of a value that fits gives the value
/// back.
pub proof fn lemma_le_value_of_bytes(value: nat, width: nat)
    requires
        value < radix(width),
    ensures
        le_value(le_bytes(value, width)) == value,
    decreases width,
{
    if width > 0 {
        let rest = le_bytes(value / 256, (width - 1) as nat);
        lemma_le_value_of_bytes(value / 256, (width - 1) as nat);
        assert(le_bytes(value, width).drop_first() =~= rest);
    }
}

/// Encoding what bytes write, at their own width, gives the bytes back.
pub proof fn lemma_le_bytes_of_value(bytes: Seq<u8>)
    ensures
        le_bytes(le_value(bytes), bytes.len()) == bytes,
    decreases bytes.len(),
{
    if bytes.len() > 0 {
        lemma_le_bytes_of_value(bytes.drop_first());
        assert(seq![bytes.first()] + bytes.drop_first() =~= bytes);
    } else {
        assert(bytes =~= Seq::<u8>::empty());
    }
}

/// Appends the big-endian encoding of `value` in `width` bytes to `out`.
pub fn push_be(out: &mut Vec<u8>, value: u64, width: usize)
    ensures
        final(out)@ == old(out)@ + be_bytes(value as nat, width as nat),
    decreases width,
{
    if width > 0 {
        push_be(out, value / 256, width - 1);
        out.push((value % 256) as u8);
        assert(out@ =~= old(out)@ + be_bytes(value as nat, width as nat));
    } else {
        assert(out@ =~= old(out)@ + be_bytes(value as nat, width as nat));
    }
}

/// Appends the little-endian encoding of `value` in `width` bytes to `out`.
pub fn push_le(out: &mut Vec<u8>, value: u64, width: usize)
    ensures
        final(out)@ == old(out)@ + le_bytes(value as nat, width as nat),
{
    let mut rest: u64 = value;
    let mut i: usize = 0;
    while i < width
        invariant
            i <= width,
            out@ + le_bytes(rest as nat, (width - i) as nat) == old(out)@ + le_bytes(
                value as nat,
                width as nat,
            ),
        decreases width - i,
    {
        let ghost before = out@;
        out.push((rest % 256) as u8);
        proof {
            let tail = le_bytes(rest as nat / 256, (width - i - 1) as nat);
            assert(out@ + tail =~= before + le_bytes(rest as nat, (width - i) as nat));
        }
        rest = rest / 256;
        i += 1;
    }
    assert(out@ + Seq::<u8>::empty() =~= out@);
}

/// Reads the `width` bytes of `bytes` that start at `from` as a big-endian
/// number.
pub fn read_be(bytes: &[u8], from: usize, width: usize) -> (value: u64)
    requires
        width <= 8,
        from + width <= bytes.len(),
    ensures
        value == be_value(bytes@.subrange(from as int, from + width)),
{
    let mut value: u64 = 0;
    let mut i: usize = 0;
    assert(bytes@.subrange(from as int, from as int) =~= Seq::<u8>::empty());
    while i < width
        invariant
            i <= width <= 8,
            from + width <= bytes.len(),
            value == be_value(bytes@.subrange(from as int, from + i)),
        decreases width - i,
    {
        proof {
            let seen = bytes@.subrange(from as int, from + i);
            let next = bytes@.subrange(from as int, from + i + 1);
            lemma_be_value_bound(seen);
            lemma_radix_values();
            assert(next.drop_last() =~= seen);
            assert(next.last() == bytes[from + i]);
        }
        value = value * 256 + bytes[from + i] as u64;
        i += 1;
    }
    value
}

/// Reads the `width` bytes of `bytes` that start at `from` as a little-endian
/// number.
pub fn read_le(bytes: &[u8], from: usize, width: usize) -> (value: u64)
    requires
        width <= 8,
        from + width <= bytes.len(),
    ensures
        value == le_value(bytes@.subrange(from as int, from + width)),
{
    let mut value: u64 = 0;
    let mut i: usize = width;
    assert(bytes@.subrange(from + width, from + width) =~= Seq::<u8>::empty());
    while i > 0
        invariant
            i <= width <= 8,
            from + width <= bytes.len(),
            value == le_value(bytes@.subrange(from + i, from + width)),
        decreases i,
    {
        proof {
            let seen = bytes@.subrange(from + i, from + width);
            let next = bytes@.subrange(from + i - 1, from + width);
            lemma_le_value_bound(seen);
            lemma_radix_values();
            assert(next.drop_first() =~= seen);
            assert(next.first() == bytes[from + i - 1]);
        }
        i -= 1;
        value = value * 256 + bytes[from + i] as u64;
    }
    value
}

/// Copies the `N` bytes of `bytes` that start at `from`.
pub fn take<const N: usize>(bytes: &[u8], from: usize) -> (taken: [u8; N])
    requires
        from + N <= bytes.len(),
    ensures
        taken@ == bytes@.subrange(from as int, from + N),
{
    let mut taken = [0u8; N];
    let mut i: usize = 0;
    while i < N
        invariant
            i <= N,
            from + N <= bytes.len(),
            forall|j: int| 0 <= j < i ==> taken[j] == bytes[from + j],
        decreases N - i,
    {
        taken[i] = bytes[from + i];
        i += 1;
    }
    assert(taken@ =~= bytes@.subrange(from as int, from + N));
    taken
}

} // verus!
