//! The signature codec: a raw 64-byte `r || s` signature to its DER form.

use vstd::prelude::*;

verus! {

/// The number that a big-endian byte string stands for.
pub open spec fn be_value(bytes: Seq<u8>) -> nat
    decreases bytes.len(),
{
    if bytes.len() == 0 {
        0
    } else {
        be_value(bytes.drop_last()) * 256 + bytes.last() as nat
    }
}

/// The content bytes of a DER integer: the magnitude, with a zero byte in
/// front of it where its top bit is set, so that it reads as non-negative.
pub open spec fn der_integer(magnitude: Seq<u8>) -> Seq<u8> {
    if magnitude.len() > 0 && magnitude[0] >= 0x80 {
        seq![0x00u8] + magnitude
    } else {
        magnitude
    }
}

/// One DER integer field: tag `0x02`, length, content.
pub open spec fn der_field(magnitude: Seq<u8>) -> Seq<u8> {
    seq![0x02u8, der_integer(magnitude).len() as u8] + der_integer(magnitude)
}

/// The `r` half of a raw signature.
pub open spec fn raw_r(raw: Seq<u8>) -> Seq<u8> {
    raw.subrange(0, 32)
}

/// The `s` half of a raw signature.
pub open spec fn raw_s(raw: Seq<u8>) -> Seq<u8> {
    raw.subrange(32, 64)
}

/// The DER encoding of a raw 64-byte signature: a sequence (`0x30`) of the
/// two integer fields, whose length byte counts both fields whole.
pub open spec fn der_signature(raw: Seq<u8>) -> Seq<u8>
    recommends
        raw.len() == 64,
{
    seq![0x30u8, (4 + der_integer(raw_r(raw)).len() + der_integer(raw_s(raw)).len()) as u8]
        + der_field(raw_r(raw)) + der_field(raw_s(raw))
}

/// Appends the DER integer field of the 32 bytes of `sign` that begin at
/// `start`.
fn push_field(out: &mut Vec<u8>, sign: &Vec<u8>, start: usize)
    requires
        start + 32 <= sign.len(),
    ensures
        final(out)@ == old(out)@ + der_field(sign@.subrange(start as int, start + 32)),
{
    let ghost magnitude = sign@.subrange(start as int, start + 32);
    let first: u8 = sign[start];
    assert((first & 0x80 != 0) == (first >= 0x80)) by (bit_vector);
    out.push(0x02);
    if first & 0x80 != 0 {
        out.push(33);
        out.push(0x00);
    } else {
        out.push(32);
    }
    let ghost head = out@;
    let mut i: usize = 0;
    while i < 32
        invariant
            i <= 32,
            start + 32 <= sign.len(),
            magnitude == sign@.subrange(start as int, start + 32),
            out@ == head + magnitude.subrange(0, i as int),
        decreases 32 - i,
    {
        out.push(sign[start + i]);
        i = i + 1;
    }
}

/// Converts a raw signature, `r` then `s` as 32-byte big-endian numbers, to
/// its DER form.
pub fn sign_to_der(sign: Vec<u8>) -> (der: Vec<u8>)
    requires
        sign@.len() == 64,
    ensures
        der@ == der_signature(sign@),
{
    let r_long: bool = sign[0] & 0x80 != 0;
    let s_long: bool = sign[32] & 0x80 != 0;
    let first_r: u8 = sign[0];
    let first_s: u8 = sign[32];
    assert((first_r & 0x80 != 0) == (first_r >= 0x80)) by (bit_vector);
    assert((first_s & 0x80 != 0) == (first_s >= 0x80)) by (bit_vector);
    let r_len: u8 = if r_long { 33 } else { 32 };
    let s_len: u8 = if s_long { 33 } else { 32 };
    let mut der: Vec<u8> = Vec::new();
    der.push(0x30);
    der.push(4 + r_len + s_len);
    push_field(&mut der, &sign, 0);
    push_field(&mut der, &sign, 32);
    der
}

/// Reads one DER integer field from the front of `bytes`: the number it
/// holds, and the bytes behind the field. The content of the field is not
/// empty, and its first byte has the top bit clear: a content whose top bit
/// is set stands for a negative number, which no signature holds.
pub open spec fn parse_integer(bytes: Seq<u8>) -> Option<(nat, Seq<u8>)> {
    if bytes.len() >= 3 && bytes[0] == 0x02 && 0 < bytes[1] < 0x80 && bytes.len() >= 2 + bytes[1]
        && bytes[2] < 0x80 {
        Some(
            (
                be_value(bytes.subrange(2, 2 + bytes[1])),
                bytes.subrange(2 + bytes[1], bytes.len() as int),
            ),
        )
    } else {
        None
    }
}

/// Reads a DER signature: a sequence that holds exactly two integer fields
/// and nothing else. The result is the pair of numbers `(r, s)`.
pub open spec fn parse_signature(der: Seq<u8>) -> Option<(nat, nat)> {
    if der.len() >= 2 && der[0] == 0x30 && der[1] < 0x80 && der.len() == 2 + der[1] {
        match parse_integer(der.subrange(2, der.len() as int)) {
            Some((r, rest)) => match parse_integer(rest) {
                Some((s, tail)) => if tail.len() == 0 {
                    Some((r, s))
                } else {
                    None
                },
                None => None,
            },
            None => None,
        }
    } else {
        None
    }
}

/// A zero byte in front of a big-endian number does not change it.
pub proof fn lemma_leading_zero(bytes: Seq<u8>)
    ensures
        be_value(seq![0x00u8] + bytes) == be_value(bytes),
    decreases bytes.len(),
{
    let padded = seq![0x00u8] + bytes;
    if bytes.len() == 0 {
        assert(be_value(padded.drop_last()) == 0);
    } else {
        assert(padded.drop_last() =~= seq![0x00u8] + bytes.drop_last());
        lemma_leading_zero(bytes.drop_last());
    }
}

/// The content of a DER integer stands for the number that its magnitude
/// stands for, and is longer than the magnitude by at most the one byte of
/// padding.
pub proof fn lemma_der_integer(magnitude: Seq<u8>)
    ensures
        be_value(der_integer(magnitude)) == be_value(magnitude),
        der_integer(magnitude).len() == magnitude.len() + (if magnitude.len() > 0 && magnitude[0]
            >= 0x80 {
            1int
        } else {
            0int
        }),
        der_integer(magnitude).len() > 0 ==> der_integer(magnitude)[0] < 0x80,
{
    lemma_leading_zero(magnitude);
}

/// An integer field of 32 bytes of magnitude, with anything behind it,
/// reads back as the number of the magnitude and what was behind it.
pub proof fn lemma_parse_field(magnitude: Seq<u8>, behind: Seq<u8>)
    requires
        magnitude.len() == 32,
    ensures
        parse_integer(der_field(magnitude) + behind) == Some((be_value(magnitude), behind)),
{
    lemma_der_integer(magnitude);
    let bytes = der_field(magnitude) + behind;
    assert(bytes.subrange(2, 2 + bytes[1]) =~= der_integer(magnitude));
}

/// The round trip: the DER form of any raw 64-byte signature reads back as
/// the very pair `(r, s)` that the raw signature holds, and is 6 bytes
/// longer than the contents of its two integers, each of which has 32 bytes,
/// or 33 where the top bit of its first byte is set.
pub proof fn lemma_der_round_trip(raw: Seq<u8>)
    requires
        raw.len() == 64,
    ensures
        parse_signature(der_signature(raw)) == Some((be_value(raw_r(raw)), be_value(raw_s(raw)))),
        der_signature(raw).len() == 6 + der_integer(raw_r(raw)).len() + der_integer(
            raw_s(raw),
        ).len(),
        der_integer(raw_r(raw)).len() == (if raw[0] >= 0x80 {
            33int
        } else {
            32int
        }),
        der_integer(raw_s(raw)).len() == (if raw[32] >= 0x80 {
            33int
        } else {
            32int
        }),
{
    let r = raw_r(raw);
    let s = raw_s(raw);
    let der = der_signature(raw);
    lemma_der_integer(r);
    lemma_der_integer(s);
    assert(der.subrange(2, der.len() as int) =~= der_field(r) + der_field(s));
    lemma_parse_field(r, der_field(s));
    lemma_parse_field(s, Seq::<u8>::empty());
}

} // verus!
