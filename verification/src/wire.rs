//! The bytes that travel between this library and the driver.
//!
//! A request carries one 32-bit parameter as four bytes, most significant
//! byte first. A response carries one 64-bit result as eight bytes, least
//! significant byte first.

use vstd::prelude::*;

verus! {

/// The number of bytes in a request.
pub const REQUEST_LEN: usize = 4;

/// The number of bytes in a response.
pub const RESPONSE_LEN: usize = 8;

/// The number that `bytes` spell when read with the most significant byte
/// first.
pub open spec fn big_endian_value(bytes: Seq<u8>) -> nat
    decreases bytes.len(),
{
    if bytes.len() == 0 {
        0
    } else {
        (big_endian_value(bytes.drop_last()) * 256 + bytes.last()) as nat
    }
}

/// The number that `bytes` spell when read with the least significant byte
/// first.
pub open spec fn little_endian_value(bytes: Seq<u8>) -> nat
    decreases bytes.len(),
{
    if bytes.len() == 0 {
        0
    } else {
        (bytes.first() + 256 * little_endian_value(bytes.drop_first())) as nat
    }
}

/// The four bytes of a request that carries `input`.
pub open spec fn request_bytes(input: u32) -> Seq<u8> {
    seq![
        (input / 0x100_0000) as u8,
        (input / 0x1_0000 % 0x100) as u8,
        (input / 0x100 % 0x100) as u8,
        (input % 0x100) as u8,
    ]
}

/// The eight bytes of a response that carries `value`.
pub open spec fn response_bytes(value: u64) -> Seq<u8> {
    seq![
        (value % 0x100) as u8,
        (value / 0x100 % 0x100) as u8,
        (value / 0x1_0000 % 0x100) as u8,
        (value / 0x100_0000 % 0x100) as u8,
        (value / 0x1_0000_0000 % 0x100) as u8,
        (value / 0x100_0000_0000 % 0x100) as u8,
        (value / 0x1_0000_0000_0000 % 0x100) as u8,
        (value / 0x100_0000_0000_0000) as u8,
    ]
}

/// Encodes the parameter of a request: four bytes, most significant first.
pub fn encode_request(input: u32) -> (bytes: [u8; 4])
    ensures
        bytes@ == request_bytes(input),
        big_endian_value(bytes@) == input,
{
    let bytes: [u8; 4] = [
        (input / 0x100_0000) as u8,
        (input / 0x1_0000 % 0x100) as u8,
        (input / 0x100 % 0x100) as u8,
        (input % 0x100) as u8,
    ];
    proof {
        assert(bytes@ =~= request_bytes(input));
        lemma_request_bytes_value(input);
    }
    bytes
}

/// Decodes a response: exactly eight bytes, least significant first. Any
/// other number of bytes is no response.
pub fn decode_response(bytes: &[u8]) -> (value: Option<u64>)
    ensures
        value is Some <==> bytes@.len() == RESPONSE_LEN,
        value matches Some(v) ==> v == little_endian_value(bytes@) && response_bytes(v) == bytes@,
{
    if bytes.len() != RESPONSE_LEN {
        return None;
    }
    let v: u64 = bytes[0] as u64 + bytes[1] as u64 * 0x100 + bytes[2] as u64 * 0x1_0000 + bytes[3] as u64
        * 0x100_0000 + bytes[4] as u64 * 0x1_0000_0000 + bytes[5] as u64 * 0x100_0000_0000 + bytes[6] as u64
        * 0x1_0000_0000_0000 + bytes[7] as u64 * 0x100_0000_0000_0000;
    proof {
        lemma_little_endian_eight(bytes@);
        lemma_digits_of_sum(v, bytes[0], bytes[1], bytes[2], bytes[3], bytes[4], bytes[5], bytes[6], bytes[7]);
        assert(response_bytes(v) =~= bytes@);
    }
    Some(v)
}

/// The value of eight bytes, least significant first, written out.
pub proof fn lemma_little_endian_eight(bytes: Seq<u8>)
    requires
        bytes.len() == 8,
    ensures
        little_endian_value(bytes) == bytes[0] + bytes[1] * 0x100 + bytes[2] * 0x1_0000 + bytes[3]
            * 0x100_0000 + bytes[4] * 0x1_0000_0000 + bytes[5] * 0x100_0000_0000 + bytes[6]
            * 0x1_0000_0000_0000 + bytes[7] * 0x100_0000_0000_0000,
        little_endian_value(bytes) <= u64::MAX,
{
    let s1 = bytes.drop_first();
    let s2 = s1.drop_first();
    let s3 = s2.drop_first();
    let s4 = s3.drop_first();
    let s5 = s4.drop_first();
    let s6 = s5.drop_first();
    let s7 = s6.drop_first();
    let s8 = s7.drop_first();
    assert(little_endian_value(s8) == 0);
    assert(little_endian_value(s7) == bytes[7]);
    assert(little_endian_value(s6) == bytes[6] + 256 * little_endian_value(s7));
    assert(little_endian_value(s5) == bytes[5] + 256 * little_endian_value(s6));
    assert(little_endian_value(s4) == bytes[4] + 256 * little_endian_value(s5));
    assert(little_endian_value(s3) == bytes[3] + 256 * little_endian_value(s4));
    assert(little_endian_value(s2) == bytes[2] + 256 * little_endian_value(s3));
    assert(little_endian_value(s1) == bytes[1] + 256 * little_endian_value(s2));
    assert(little_endian_value(bytes) == bytes[0] + 256 * little_endian_value(s1));
}

/// The bytes of a request spell its parameter, most significant byte first.
pub proof fn lemma_request_bytes_value(input: u32)
    ensures
        request_bytes(input).len() == REQUEST_LEN,
        big_endian_value(request_bytes(input)) == input,
{
    let s4 = request_bytes(input);
    let s3 = s4.drop_last();
    let s2 = s3.drop_last();
    let s1 = s2.drop_last();
    let s0 = s1.drop_last();
    assert(big_endian_value(s0) == 0);
    assert(big_endian_value(s1) == s4[0]);
    assert(big_endian_value(s2) == big_endian_value(s1) * 256 + s4[1]);
    assert(big_endian_value(s3) == big_endian_value(s2) * 256 + s4[2]);
    assert(big_endian_value(s4) == big_endian_value(s3) * 256 + s4[3]);
}

/// Decoding the bytes of a response gives its value back: the two encodings
/// are inverse to each other on eight bytes.
pub proof fn lemma_response_round_trip(value: u64)
    ensures
        response_bytes(value).len() == RESPONSE_LEN,
        little_endian_value(response_bytes(value)) == value,
{
    lemma_little_endian_eight(response_bytes(value));
    lemma_sum_of_digits(value);
}

/// Each base-256 digit of a sum of eight weighted bytes is the byte of that
/// weight.
proof fn lemma_digits_of_sum(v: u64, b0: u8, b1: u8, b2: u8, b3: u8, b4: u8, b5: u8, b6: u8, b7: u8)
    by (bit_vector)
    requires
        v == b0 + b1 * 0x100 + b2 * 0x1_0000 + b3 * 0x100_0000 + b4 * 0x1_0000_0000 + b5
            * 0x100_0000_0000 + b6 * 0x1_0000_0000_0000 + b7 * 0x100_0000_0000_0000,
    ensures
        v % 0x100 == b0,
        v / 0x100 % 0x100 == b1,
        v / 0x1_0000 % 0x100 == b2,
        v / 0x100_0000 % 0x100 == b3,
        v / 0x1_0000_0000 % 0x100 == b4,
        v / 0x100_0000_0000 % 0x100 == b5,
        v / 0x1_0000_0000_0000 % 0x100 == b6,
        v / 0x100_0000_0000_0000 == b7,
{
}

/// A 64-bit number is the sum of its eight base-256 digits, each with its
/// weight.
proof fn lemma_sum_of_digits(v: u64)
    by (bit_vector)
    ensures
        v == (v % 0x100) + (v / 0x100 % 0x100) * 0x100 + (v / 0x1_0000 % 0x100) * 0x1_0000 + (v
            / 0x100_0000 % 0x100) * 0x100_0000 + (v / 0x1_0000_0000 % 0x100) * 0x1_0000_0000 + (v
            / 0x100_0000_0000 % 0x100) * 0x100_0000_0000 + (v / 0x1_0000_0000_0000 % 0x100)
            * 0x1_0000_0000_0000 + (v / 0x100_0000_0000_0000) * 0x100_0000_0000_0000,
        v / 0x100_0000_0000_0000 < 0x100,
{
}

} // verus!
