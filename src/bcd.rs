use vstd::prelude::*;

verus! {

/// The three decimal digits of `byte`, hundreds first.
pub open spec fn bcd_digits(byte: u8) -> Seq<u8> {
    seq![(byte / 100) as u8, ((byte / 10) % 10) as u8, (byte % 10) as u8]
}

/// The double-dabble scratch word once the top `k` bits of `byte` have been
/// shifted in: the decimal digits of those bits in the nibbles 2 to 4, the bits
/// still to come in the low byte.
spec fn dabble_state(byte: u8, k: u32) -> u32 {
    let hi = (byte as u32) >> ((8 - k) as u32);
    let lo = ((byte as u32) << k) & 0xFFu32;
    ((hi / 100) << 16u32) | (((hi / 10) % 10) << 12u32) | ((hi % 10) << 8u32) | lo
}

/// Adds 3 to the BCD digit in nibble `idx` of `s` where that digit is 5 or more.
spec fn adjust_nibble(s: u32, idx: u32) -> u32 {
    if (s >> ((4 * idx) as u32)) & 0xFu32 >= 5 {
        (s + (3u32 << ((4 * idx) as u32))) as u32
    } else {
        s
    }
}

/// The scratch word after the digits in nibbles 2 up to `idx` (exclusive) were adjusted.
spec fn adjusted_below(s: u32, idx: u32) -> u32
    decreases idx,
{
    if idx <= 2 {
        s
    } else {
        adjust_nibble(adjusted_below(s, (idx - 1) as u32), (idx - 1) as u32)
    }
}

/// The three adjustments of one step, written out.
proof fn lemma_adjusted_unfold(s: u32)
    ensures
        adjusted_below(s, 2) == s,
        adjusted_below(s, 3) == adjust_nibble(s, 2),
        adjusted_below(s, 4) == adjust_nibble(adjust_nibble(s, 2), 3),
        adjusted_below(s, 5) == adjust_nibble(adjust_nibble(adjust_nibble(s, 2), 3), 4),
{
    assert(adjusted_below(s, 2) == s);
    assert(adjusted_below(s, 3) == adjust_nibble(adjusted_below(s, 2), 2));
    assert(adjusted_below(s, 4) == adjust_nibble(adjusted_below(s, 3), 3));
    assert(adjusted_below(s, 5) == adjust_nibble(adjusted_below(s, 4), 4));
}

/// One double-dabble step on the digits `h`, `t`, `o` with the pending bits `lo`:
/// adjusting and shifting doubles the number and brings in the top bit of `lo`.
proof fn lemma_dabble_step(h: u32, t: u32, o: u32, lo: u32)
    requires
        h <= 1,
        t <= 9,
        o <= 9,
        lo <= 255,
    ensures
        ({
            let s = (h << 16u32) | (t << 12u32) | (o << 8u32) | lo;
            let a1 = if (s >> 8u32) & 0xFu32 >= 5 { (s + (3u32 << 8u32)) as u32 } else { s };
            let a2 = if (a1 >> 12u32) & 0xFu32 >= 5 { (a1 + (3u32 << 12u32)) as u32 } else { a1 };
            let a3 = if (a2 >> 16u32) & 0xFu32 >= 5 { (a2 + (3u32 << 16u32)) as u32 } else { a2 };
            let v = (100 * h + 10 * t + o) as u32;
            let n = (2 * v + (lo >> 7u32)) as u32;
            &&& s < 0x20000
            &&& a1 < 0x40000
            &&& a2 < 0x40000
            &&& (a3 << 1u32) == ((n / 100) << 16u32) | (((n / 10) % 10) << 12u32) | ((n % 10) << 8u32) | ((lo << 1u32)
                & 0xFFu32)
        }),
{
    assert({
        let s = (h << 16u32) | (t << 12u32) | (o << 8u32) | lo;
        let a1 = if (s >> 8u32) & 0xFu32 >= 5 { (s + (3u32 << 8u32)) as u32 } else { s };
        let a2 = if (a1 >> 12u32) & 0xFu32 >= 5 { (a1 + (3u32 << 12u32)) as u32 } else { a1 };
        let a3 = if (a2 >> 16u32) & 0xFu32 >= 5 { (a2 + (3u32 << 16u32)) as u32 } else { a2 };
        let v = (100 * h + 10 * t + o) as u32;
        let n = (2 * v + (lo >> 7u32)) as u32;
        &&& s < 0x20000
        &&& a1 < 0x40000
        &&& a2 < 0x40000
        &&& (a3 << 1u32) == ((n / 100) << 16u32) | (((n / 10) % 10) << 12u32) | ((n % 10) << 8u32) | ((lo << 1u32)
            & 0xFFu32)
    }) by (bit_vector)
        requires
            h <= 1,
            t <= 9,
            o <= 9,
            lo <= 255,
    ;
}

/// One more bit of `byte` moves from the low byte into the decimal part.
proof fn lemma_next_bit(b: u32, k: u32)
    requires
        b <= 255,
        k < 8,
    ensures
        b >> ((8 - k) as u32) < 128,
        b >> ((8 - (k + 1)) as u32) == 2 * (b >> ((8 - k) as u32)) + (((b << k) & 0xFFu32) >> 7u32),
        ((b << ((k + 1) as u32)) & 0xFFu32) == ((((b << k) & 0xFFu32) << 1u32) & 0xFFu32),
{
    assert(b >> ((8 - k) as u32) < 128) by (bit_vector)
        requires
            b <= 255,
            k < 8,
    ;
    assert(b >> ((8 - (k + 1)) as u32) == 2 * (b >> ((8 - k) as u32)) + (((b << k) & 0xFFu32) >> 7u32)) by (bit_vector)
        requires
            b <= 255,
            k < 8,
    ;
    assert(((b << ((k + 1) as u32)) & 0xFFu32) == ((((b << k) & 0xFFu32) << 1u32) & 0xFFu32)) by (bit_vector)
        requires
            b <= 255,
            k < 8,
    ;
}

/// The three decimal digits of `byte`, hundreds first, by the double-dabble
/// method: shift the bits in one at a time, adding 3 to each decimal digit of
/// 5 or more before each shift.
pub fn to_bcd(byte: u8) -> (r: [u8; 3])
    ensures
        r@ == bcd_digits(byte),
{
    let mut scratch = 0u32;
    scratch = scratch | byte as u32;
    let mut k: u32 = 0;
    proof {
        let b = byte as u32;
        assert(b >> 8u32 == 0 && (b << 0u32) & 0xFFu32 == b && (0u32 | b) == b) by (bit_vector)
            requires
                b <= 255,
        ;
        assert(((0u32 / 100) << 16u32) | (((0u32 / 10) % 10) << 12u32) | ((0u32 % 10) << 8u32) | b == b) by (bit_vector);
    }
    while k < 8
        invariant
            k <= 8,
            scratch == dabble_state(byte, k),
        decreases 8 - k,
    {
        let ghost b = byte as u32;
        let ghost hi = b >> ((8 - k) as u32);
        let ghost lo = (b << k) & 0xFFu32;
        proof {
            lemma_next_bit(b, k);
            assert(lo <= 255) by (bit_vector)
                requires
                    lo == (b << k) & 0xFFu32,
            ;
            assert(hi == 100 * (hi / 100) + 10 * ((hi / 10) % 10) + hi % 10) by (bit_vector)
                requires
                    hi < 128,
            ;
            lemma_dabble_step(hi / 100, (hi / 10) % 10, hi % 10, lo);
        }
        let ghost start = scratch;
        let mut nibble_idx: u32 = 2;
        while nibble_idx < 5
            invariant
                2 <= nibble_idx <= 5,
                start < 0x20000,
                adjust_nibble(start, 2) < 0x40000,
                adjust_nibble(adjust_nibble(start, 2), 3) < 0x40000,
                scratch == adjusted_below(start, nibble_idx),
                scratch < 0x80000,
            decreases 5 - nibble_idx,
        {
            proof {
                lemma_adjusted_unfold(start);
                assert((3u32 << (4 * nibble_idx) as u32) <= 0x30000) by (bit_vector)
                    requires
                        nibble_idx < 5,
                ;
            }
            if (scratch >> (4 * nibble_idx)) & 0xFu32 >= 5 {
                scratch += 3u32 << (4 * nibble_idx);
            }
            nibble_idx += 1;
        }
        proof {
            lemma_adjusted_unfold(start);
        }
        scratch = scratch << 1u32;
        k += 1;
    }
    proof {
        let b = byte as u32;
        assert(b >> 0u32 == b && (b << 8u32) & 0xFFu32 == 0) by (bit_vector)
            requires
                b <= 255,
        ;
        let h = b / 100;
        let t = (b / 10) % 10;
        let o = b % 10;
        assert(((((h << 16u32) | (t << 12u32) | (o << 8u32) | 0u32) >> 16u32) & 0xFu32) == h
            && ((((h << 16u32) | (t << 12u32) | (o << 8u32) | 0u32) >> 12u32) & 0xFu32) == t
            && ((((h << 16u32) | (t << 12u32) | (o << 8u32) | 0u32) >> 8u32) & 0xFu32) == o) by (bit_vector)
            requires
                h <= 2,
                t <= 9,
                o <= 9,
        ;
    }
    let r = [
        ((scratch >> 16u32) & 0xFu32) as u8,
        ((scratch >> 12u32) & 0xFu32) as u8,
        ((scratch >> 8u32) & 0xFu32) as u8,
    ];
    proof {
        assert(r@ =~= bcd_digits(byte));
    }
    r
}

} // verus!
