//! Bit-level codec for the UART-emulated single wire interface.
//!
//! The chip's single wire signalling is emulated over an ordinary UART:
//! every logical bit becomes one byte time on the line, so a logical
//! buffer grows by a factor of eight on its way to the wire.  Encoding
//! walks each byte from its least significant bit upward and emits one
//! marker byte per bit.  Decoding reads eight received bytes per logical
//! byte, flipping the accumulator's low bit whenever the received byte is
//! one of the two observed "one" markers and rotating right after every
//! byte, which leaves the first-received bit in the lowest position.
//!
//! The port runs with seven data bits, so a transmitted `0xFF` marker is
//! observed on the receive side as `0x7F` with its top bit stripped; the
//! decoder therefore recognises `0x7E` and `0x7F`, not the bytes the
//! encoder emits.  The round-trip law at the end of this module goes
//! through that seven-bit wire image.

use vstd::prelude::*;

verus! {

/// Byte written on the wire for a logical 0 bit.
pub const SWI_BIT_ZERO: u8 = 0xFD;
/// Byte written on the wire for a logical 1 bit.
pub const SWI_BIT_ONE: u8 = 0xFF;

/// Whether a received wire byte reads back as a 1 bit.  The two values
/// are the seven-bit images of a transmitted one marker as the chip and
/// the host produce it.
pub open spec fn is_one_marker(b: u8) -> bool {
    b == 0x7E || b == 0x7F
}

/// The wire byte that carries bit `i` of `byte` (least significant bit
/// first).
pub open spec fn encoded_bit(byte: u8, i: u8) -> u8 {
    if byte & (1u8 << i) == 0 {
        SWI_BIT_ZERO
    } else {
        SWI_BIT_ONE
    }
}

/// Wire image of a logical buffer: eight marker bytes per logical byte,
/// least significant bit first.
pub open spec fn encode_spec(s: Seq<u8>) -> Seq<u8> {
    Seq::new(s.len() * 8, |j: int| encoded_bit(s[j / 8], (j % 8) as u8))
}

/// 0 or 1 according to whether a received wire byte reads as a 1 bit.
pub open spec fn bit_of(b: u8) -> u8 {
    if is_one_marker(b) {
        1u8
    } else {
        0u8
    }
}

/// The logical byte carried by eight received wire bytes, given in
/// transmission order: the first received byte lands in the lowest bit.
pub open spec fn decoded_byte8(b0: u8, b1: u8, b2: u8, b3: u8, b4: u8, b5: u8, b6: u8, b7: u8) -> u8 {
    bit_of(b0)
        | (bit_of(b1) << 1u8)
        | (bit_of(b2) << 2u8)
        | (bit_of(b3) << 3u8)
        | (bit_of(b4) << 4u8)
        | (bit_of(b5) << 5u8)
        | (bit_of(b6) << 6u8)
        | (bit_of(b7) << 7u8)
}

/// The logical byte carried by one group of eight received wire bytes.
pub open spec fn decoded_byte(g: Seq<u8>) -> u8
    recommends
        g.len() == 8,
{
    decoded_byte8(g[0], g[1], g[2], g[3], g[4], g[5], g[6], g[7])
}

/// Logical image of a received wire buffer: one byte per group of eight.
pub open spec fn decode_spec(s: Seq<u8>) -> Seq<u8> {
    Seq::new(s.len() / 8, |i: int| decoded_byte(s.subrange(8 * i, 8 * i + 8)))
}

/// Rotate a byte right by one position.
pub open spec fn rotate_right_one(x: u8) -> u8 {
    (x >> 1u8) | ((x & 1u8) << 7u8)
}

/// One step of the serial reassembly: flip the accumulator's low bit on a
/// one marker, then rotate right.
pub open spec fn reassemble_step(acc: u8, b: u8) -> u8 {
    rotate_right_one(acc ^ bit_of(b))
}

/// Eight reassembly steps over a group, starting from an empty
/// accumulator.
pub open spec fn reassemble8(b0: u8, b1: u8, b2: u8, b3: u8, b4: u8, b5: u8, b6: u8, b7: u8) -> u8 {
    let a0 = 0u8;
    let a1 = reassemble_step(a0, b0);
    let a2 = reassemble_step(a1, b1);
    let a3 = reassemble_step(a2, b2);
    let a4 = reassemble_step(a3, b3);
    let a5 = reassemble_step(a4, b4);
    let a6 = reassemble_step(a5, b5);
    let a7 = reassemble_step(a6, b6);
    reassemble_step(a7, b7)
}

/// The flip-and-rotate reassembly of eight wire bytes equals the direct
/// bit reading: bit `i` of the result is set exactly when byte `i` of the
/// group is a one marker.
proof fn lemma_reassemble_reads_bits(b0: u8, b1: u8, b2: u8, b3: u8, b4: u8, b5: u8, b6: u8, b7: u8)
    by (bit_vector)
    ensures
        reassemble8(b0, b1, b2, b3, b4, b5, b6, b7) == decoded_byte8(b0, b1, b2, b3, b4, b5, b6, b7),
{
}

/// Encode a logical buffer for the wire: one marker byte per bit, least
/// significant bit of each byte first.  The output is always exactly
/// eight times as long as the input, and every output byte is one of the
/// two markers.
pub fn encode(uart_msg: &Vec<u8>) -> (r: Vec<u8>)
    ensures
        r@ == encode_spec(uart_msg@),
        r@.len() == uart_msg@.len() * 8,
        forall|j: int| 0 <= j < r@.len() ==> r@[j] == SWI_BIT_ZERO || r@[j] == SWI_BIT_ONE,
{
    let mut bit_field: Vec<u8> = Vec::new();
    let mut i: usize = 0;
    while i < uart_msg.len()
        invariant
            i <= uart_msg@.len(),
            bit_field@.len() == 8 * i,
            bit_field@ =~= encode_spec(uart_msg@).take(8 * i),
        decreases uart_msg@.len() - i,
    {
        let byte = uart_msg[i];
        let mut k: usize = 0;
        while k < 8
            invariant
                k <= 8,
                i < uart_msg@.len(),
                byte == uart_msg@[i as int],
                bit_field@.len() == 8 * i + k,
                bit_field@ =~= encode_spec(uart_msg@).take(8 * i + k),
            decreases 8 - k,
        {
            let kb: u8 = k as u8;
            if ((1u8 << kb) & byte) >> kb == 0 {
                bit_field.push(SWI_BIT_ZERO);
            } else {
                bit_field.push(SWI_BIT_ONE);
            }
            proof {
                let j: int = 8 * (i as int) + (k as int);
                assert(j / 8 == i as int && j % 8 == k as int);
                assert((((1u8 << kb) & byte) >> kb == 0) == (byte & (1u8 << kb) == 0)) by (bit_vector)
                    requires
                        kb < 8,
                ;
                assert(encode_spec(uart_msg@)[j] == encoded_bit(byte, kb));
                assert(bit_field@ =~= encode_spec(uart_msg@).take(j + 1));
            }
            k += 1;
        }
        i += 1;
    }
    proof {
        assert(bit_field@ =~= encode_spec(uart_msg@));
        assert forall|j: int| 0 <= j < encode_spec(uart_msg@).len() implies encode_spec(uart_msg@)[j]
            == SWI_BIT_ZERO || encode_spec(uart_msg@)[j] == SWI_BIT_ONE by {
            assert(encode_spec(uart_msg@)[j] == encoded_bit(uart_msg@[j / 8], (j % 8) as u8));
        }
    }
    bit_field
}

/// One decoder step, exactly as the bytes come off the line: flip the low
/// bit on a one marker, then rotate the accumulator right.
fn decode_step(acc: u8, b: u8) -> (r: u8)
    ensures
        r == reassemble_step(acc, b),
{
    let mut x = acc;
    if b == 0x7F || b == 0x7E {
        x = x ^ 1u8;
    } else {
        proof {
            assert(acc ^ 0u8 == acc) by (bit_vector);
        }
    }
    (x >> 1u8) | ((x & 1u8) << 7u8)
}

/// Decode the group of eight wire bytes starting at `base`.
fn decode_byte_at(swi_msg: &Vec<u8>, base: usize) -> (r: u8)
    requires
        base + 8 <= swi_msg@.len(),
    ensures
        r == decoded_byte(swi_msg@.subrange(base as int, base as int + 8)),
{
    let n = swi_msg.len();
    let g0 = swi_msg[base];
    let g1 = swi_msg[base + 1];
    let g2 = swi_msg[base + 2];
    let g3 = swi_msg[base + 3];
    let g4 = swi_msg[base + 4];
    let g5 = swi_msg[base + 5];
    let g6 = swi_msg[base + 6];
    let g7 = swi_msg[base + 7];
    let mut acc: u8 = 0;
    acc = decode_step(acc, g0);
    acc = decode_step(acc, g1);
    acc = decode_step(acc, g2);
    acc = decode_step(acc, g3);
    acc = decode_step(acc, g4);
    acc = decode_step(acc, g5);
    acc = decode_step(acc, g6);
    acc = decode_step(acc, g7);
    proof {
        lemma_reassemble_reads_bits(g0, g1, g2, g3, g4, g5, g6, g7);
        let g = swi_msg@.subrange(base as int, base as int + 8);
        assert(g[0] == g0 && g[1] == g1 && g[2] == g2 && g[3] == g3 && g[4] == g4 && g[5] == g5
            && g[6] == g6 && g[7] == g7);
    }
    acc
}

/// Decode a received wire buffer into its logical bytes.
///
/// The input length must be a multiple of eight: a partial group is a
/// programming error in the caller and is never silently truncated.
pub fn decode(swi_msg: &Vec<u8>) -> (r: Vec<u8>)
    requires
        swi_msg@.len() % 8 == 0,
    ensures
        r@ == decode_spec(swi_msg@),
        8 * r@.len() == swi_msg@.len(),
{
    let mut uart_msg: Vec<u8> = Vec::new();
    let n = swi_msg.len();
    let total = n / 8;
    let mut i: usize = 0;
    while i < total
        invariant
            n == swi_msg@.len(),
            total == swi_msg@.len() / 8,
            swi_msg@.len() % 8 == 0,
            i <= total,
            uart_msg@ =~= decode_spec(swi_msg@).take(i as int),
        decreases total - i,
    {
        proof {
            assert(8 * (swi_msg@.len() / 8) == swi_msg@.len());
            assert(8 * (i as int) + 8 <= swi_msg@.len());
        }
        let b = decode_byte_at(swi_msg, i * 8);
        uart_msg.push(b);
        proof {
            assert(uart_msg@ =~= decode_spec(swi_msg@).take(i + 1));
        }
        i += 1;
    }
    proof {
        assert(uart_msg@ =~= decode_spec(swi_msg@));
    }
    uart_msg
}

/// A byte as the seven-data-bit port observes it: the top bit stripped.
pub open spec fn wire_byte(b: u8) -> u8 {
    b & 0x7F
}

/// A transmitted buffer as the receive side observes it.
pub open spec fn wire_image(s: Seq<u8>) -> Seq<u8> {
    s.map_values(|b: u8| wire_byte(b))
}

/// One encoded byte of `b`, observed through the seven-bit port, decodes
/// back to the bit it carried.
proof fn lemma_round_trip_byte(b: u8)
    by (bit_vector)
    ensures
        decoded_byte8(
            wire_byte(encoded_bit(b, 0u8)),
            wire_byte(encoded_bit(b, 1u8)),
            wire_byte(encoded_bit(b, 2u8)),
            wire_byte(encoded_bit(b, 3u8)),
            wire_byte(encoded_bit(b, 4u8)),
            wire_byte(encoded_bit(b, 5u8)),
            wire_byte(encoded_bit(b, 6u8)),
            wire_byte(encoded_bit(b, 7u8)),
        ) == b,
{
}

/// Codec round trip.  The port runs seven data bits, so every encoded
/// byte is read back with its top bit stripped; decoding that wire image
/// of an encoded buffer returns the original buffer exactly.
pub proof fn lemma_codec_round_trip(s: Seq<u8>)
    ensures
        decode_spec(wire_image(encode_spec(s))) == s,
{
    let e = encode_spec(s);
    let w = wire_image(e);
    assert(w.len() == 8 * s.len());
    let d = decode_spec(w);
    assert(d.len() == s.len());
    assert forall|i: int| 0 <= i < s.len() implies d[i] == s[i] by {
        let g = w.subrange(8 * i, 8 * i + 8);
        assert forall|j: int| 0 <= j < 8 implies g[j] == wire_byte(encoded_bit(s[i], j as u8)) by {
            assert((8 * i + j) / 8 == i && (8 * i + j) % 8 == j);
            assert(e[8 * i + j] == encoded_bit(s[i], j as u8));
        }
        lemma_round_trip_byte(s[i]);
        assert(g[0] == wire_byte(encoded_bit(s[i], 0u8)));
        assert(g[1] == wire_byte(encoded_bit(s[i], 1u8)));
        assert(g[2] == wire_byte(encoded_bit(s[i], 2u8)));
        assert(g[3] == wire_byte(encoded_bit(s[i], 3u8)));
        assert(g[4] == wire_byte(encoded_bit(s[i], 4u8)));
        assert(g[5] == wire_byte(encoded_bit(s[i], 5u8)));
        assert(g[6] == wire_byte(encoded_bit(s[i], 6u8)));
        assert(g[7] == wire_byte(encoded_bit(s[i], 7u8)));
    }
    assert(d =~= s);
}

} // verus!
