//! Big-endian numbers.

use vstd::prelude::*;

verus! {

/// The low `count` bytes of `value`, most significant first.
pub open spec fn be_bytes(value: nat, count: nat) -> Seq<u8>
    decreases count,
{
    if count == 0 {
        Seq::empty()
    } else {
        be_bytes(value / 256, (count - 1) as nat).push((value % 256) as u8)
    }
}

/// The number that bytes spell, most significant first.
pub open spec fn be_value(bytes: Seq<u8>) -> nat
    decreases bytes.len(),
{
    if bytes.len() == 0 {
        0
    } else {
        be_value(bytes.drop_last()) * 256 + bytes.last() as nat
    }
}

/// The first number that `count` bytes cannot spell.
pub open spec fn be_limit(count: nat) -> nat
    decreases count,
{
    if count == 0 {
        1
    } else {
        256 * be_limit((count - 1) as nat)
    }
}

/// Bytes written are as many as asked for.
pub proof fn lemma_be_bytes_len(value: nat, count: nat)
    ensures
        be_bytes(value, count).len() == count,
    decreases count,
{
    if count > 0 {
        lemma_be_bytes_len(value / 256, (count - 1) as nat);
    }
}

/// Reading gives back a number that was written in enough bytes.
pub proof fn lemma_be_round_trip(value: nat, count: nat)
    requires
        value < be_limit(count),
    ensures
        be_bytes(value, count).len() == count,
        be_value(be_bytes(value, count)) == value,
    decreases count,
{
    if count > 0 {
        let high = value / 256;
        lemma_be_round_trip(high, (count - 1) as nat);
        let bytes = be_bytes(value, count);
        assert(bytes.drop_last() =~= be_bytes(high, (count - 1) as nat));
        assert(bytes.last() as nat == value % 256);
    }
}

/// Writing what was read gives the same bytes.
pub proof fn lemma_be_read_write(bytes: Seq<u8>)
    ensures
        be_value(bytes) < be_limit(bytes.len()),
        be_bytes(be_value(bytes), bytes.len()) == bytes,
    decreases bytes.len(),
{
    if bytes.len() > 0 {
        let front = bytes.drop_last();
        let value = be_value(bytes);
        lemma_be_read_write(front);
        assert(value / 256 == be_value(front));
        assert(value % 256 == bytes.last());
        assert(be_bytes(value, bytes.len()) =~= front.push(bytes.last()));
        assert(bytes =~= front.push(bytes.last()));
    }
}

/// What four and eight bytes can spell.
pub proof fn lemma_be_limits()
    ensures
        be_limit(4) == 0x1_0000_0000,
        be_limit(8) == 0x1_0000_0000_0000_0000,
{
    reveal_with_fuel(be_limit, 9);
}

/// Appends `value` to `out` in `count` bytes, most significant first.
pub(crate) fn push_be(out: &mut Vec<u8>, value: u64, count: usize)
    ensures
        final(out)@ == old(out)@ + be_bytes(value as nat, count as nat),
    decreases count,
{
    if count == 0 {
        assert(old(out)@ + be_bytes(value as nat, 0) =~= old(out)@);
    } else {
        push_be(out, value / 256, count - 1);
        out.push((value % 256) as u8);
        proof {
            let front = be_bytes(value as nat / 256, (count - 1) as nat);
            assert(old(out)@ + front.push((value % 256) as u8) =~= (old(out)@ + front).push(
                (value % 256) as u8,
            ));
        }
    }
}

/// Reads the number in the `count` bytes of `bytes` from `start` on.
pub(crate) fn read_be(bytes: &[u8], start: usize, count: usize) -> (value: u64)
    requires
        count <= 8,
        start + count <= bytes@.len(),
    ensures
        value == be_value(bytes@.subrange(start as int, start + count)),
{
    let end: usize = bytes.len();
    let mut value: u64 = 0;
    let mut i: usize = 0;
    while i < count
        invariant
            end == bytes@.len(),
            i <= count <= 8,
            start + count <= bytes@.len(),
            value == be_value(bytes@.subrange(start as int, start + i)),
            value < be_limit(i as nat),
        decreases count - i,
    {
        proof {
            let field = bytes@.subrange(start as int, start + i + 1);
            assert(field.drop_last() =~= bytes@.subrange(start as int, start + i));
            assert(field.last() == bytes@[start + i]);
            lemma_be_read_write(field);
            assert(be_limit((i + 1) as nat) == 256 * be_limit(i as nat));
            assert(be_limit((i + 1) as nat) <= 0x1_0000_0000_0000_0000) by {
                reveal_with_fuel(be_limit, 9);
            }
        }
        value = value * 256 + bytes[start + i] as u64;
        i += 1;
    }
    value
}

/// The number that four bytes spell.
pub proof fn law_value_of_four_bytes(bytes: Seq<u8>)
    requires
        bytes.len() == 4,
    ensures
        be_value(bytes) == 0x100_0000 * bytes[0] + 0x1_0000 * bytes[1] + 0x100 * bytes[2] + bytes[3],
{
    reveal_with_fuel(be_value, 5);
}

/// The number that eight bytes spell: that of the first four, and of the last four.
pub proof fn law_value_of_eight_bytes(bytes: Seq<u8>)
    requires
        bytes.len() == 8,
    ensures
        be_value(bytes) == 0x1_0000_0000 * (0x100_0000 * bytes[0] + 0x1_0000 * bytes[1] + 0x100
            * bytes[2] + bytes[3]) + (0x100_0000 * bytes[4] + 0x1_0000 * bytes[5] + 0x100
            * bytes[6] + bytes[7]),
{
    let b7 = bytes.drop_last();
    let b6 = b7.drop_last();
    let b5 = b6.drop_last();
    let b4 = b5.drop_last();
    law_value_of_four_bytes(b4);
    assert(be_value(b5) == 256 * be_value(b4) + bytes[4]);
    assert(be_value(b6) == 256 * be_value(b5) + bytes[5]);
    assert(be_value(b7) == 256 * be_value(b6) + bytes[6]);
}

} // verus!
