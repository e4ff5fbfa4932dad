//! Lossy UTF-8 decoding of raw PTY output chunks.
//!
//! Every chunk read from the master descriptor is turned into text before it
//! is handed to the read callback. Well-formed scalar encodings decode to
//! their scalar; every maximal prefix of an ill-formed sequence is replaced
//! by U+FFFD. Decoding is total: it never fails, whatever bytes arrive.

use vstd::prelude::*;
use vstd::utf8::*;

verus! {

/// The Unicode replacement character substituted for ill-formed input.
pub open spec fn replacement_char() -> char {
    '\u{FFFD}'
}

/// True when `b1` is acceptable as the second byte of a multi-byte encoding
/// whose leading byte is `b0`: the usual continuation range, narrowed for the
/// leading bytes whose full continuation range would reach overlong encodings
/// (0xE0, 0xF0), surrogates (0xED) or values beyond U+10FFFF (0xF4).
pub open spec fn second_byte_ok(b0: u8, b1: u8) -> bool {
    if b0 == 0xE0 {
        0xA0 <= b1 <= 0xBF
    } else if b0 == 0xED {
        0x80 <= b1 <= 0x9F
    } else if b0 == 0xF0 {
        0x90 <= b1 <= 0xBF
    } else if b0 == 0xF4 {
        0x80 <= b1 <= 0x8F
    } else {
        is_continuation_byte(b1)
    }
}

/// How many bytes an ill-formed sequence at the front of `bs` consumes: the
/// length of its maximal prefix that is also a prefix of some well-formed
/// encoding, and at least one byte.
pub open spec fn invalid_step_len(bs: Seq<u8>) -> int
    recommends
        bs.len() > 0,
        !valid_first_scalar(bs),
{
    let b0 = bs[0];
    if 0xE0 <= b0 <= 0xEF && bs.len() >= 2 && second_byte_ok(b0, bs[1]) {
        2
    } else if 0xF0 <= b0 <= 0xF4 && bs.len() >= 2 && second_byte_ok(b0, bs[1]) {
        if bs.len() >= 3 && is_continuation_byte(bs[2]) {
            3
        } else {
            2
        }
    } else {
        1
    }
}

/// How many bytes the first decoding step consumes.
pub open spec fn step_len(bs: Seq<u8>) -> int
    recommends
        bs.len() > 0,
{
    if valid_first_scalar(bs) {
        length_of_first_scalar(bs)
    } else {
        invalid_step_len(bs)
    }
}

/// The character the first decoding step produces: the first scalar when the
/// front of `bs` is well formed, the replacement character otherwise.
pub open spec fn step_char(bs: Seq<u8>) -> char
    recommends
        bs.len() > 0,
{
    if valid_first_scalar(bs) {
        decode_first_scalar(bs) as char
    } else {
        replacement_char()
    }
}

/// The lossy decoding of a whole byte sequence: the characters produced by
/// repeated decoding steps until the input is exhausted.
pub open spec fn lossy_decode(bs: Seq<u8>) -> Seq<char>
    decreases bs.len(),
{
    if bs.len() == 0 {
        Seq::empty()
    } else if 1 <= step_len(bs) <= bs.len() {
        seq![step_char(bs)] + lossy_decode(bs.skip(step_len(bs)))
    } else {
        // unreachable: a step always consumes between one byte and the rest
        Seq::empty()
    }
}

/// A decoding step consumes at least one byte and never more than remain.
pub proof fn lemma_step_len_bounds(bs: Seq<u8>)
    requires
        bs.len() > 0,
    ensures
        1 <= step_len(bs) <= bs.len(),
{
}

/// Law: decoding never loses a chunk. Any non-empty byte sequence decodes to
/// non-empty text, whether or not the bytes are well formed.
pub proof fn lemma_lossy_decode_delivers(bs: Seq<u8>)
    requires
        bs.len() > 0,
    ensures
        lossy_decode(bs).len() > 0,
{
    lemma_step_len_bounds(bs);
}

/// Law: on well-formed UTF-8 input, lossy decoding agrees with exact UTF-8
/// decoding; replacement happens only on ill-formed input.
pub proof fn lemma_lossy_decode_exact(bs: Seq<u8>)
    requires
        valid_utf8(bs),
    ensures
        lossy_decode(bs) == decode_utf8(bs),
    decreases bs.len(),
{
    if bs.len() > 0 {
        lemma_step_len_bounds(bs);
        assert(valid_first_scalar(bs));
        assert(step_len(bs) == length_of_first_scalar(bs));
        assert(bs.skip(step_len(bs)) =~= pop_first_scalar(bs));
        lemma_lossy_decode_exact(pop_first_scalar(bs));
        assert(lossy_decode(bs) =~= decode_utf8(bs));
    }
}

/// Law: decoding never invents characters — the text is at most one
/// character per input byte.
pub proof fn lemma_lossy_decode_len(bs: Seq<u8>)
    ensures
        lossy_decode(bs).len() <= bs.len(),
    decreases bs.len(),
{
    if bs.len() > 0 {
        lemma_step_len_bounds(bs);
        lemma_lossy_decode_len(bs.skip(step_len(bs)));
    }
}

/// Law: plain ASCII bytes decode to exactly themselves, character for
/// character — the text a caller writes comes back unchanged in the decoded
/// output that echoes it.
pub proof fn lemma_lossy_decode_ascii(bs: Seq<u8>)
    requires
        forall|i: int| 0 <= i < bs.len() ==> bs[i] < 0x80,
    ensures
        lossy_decode(bs) == bs.map_values(|b: u8| b as char),
    decreases bs.len(),
{
    if bs.len() > 0 {
        let b = bs[0];
        assert((b & 0x7F) == b) by (bit_vector)
            requires
                b < 0x80,
        ;
        assert(valid_first_scalar(bs));
        assert(step_len(bs) == 1);
        lemma_lossy_decode_ascii(bs.skip(1));
        assert(lossy_decode(bs) =~= bs.map_values(|x: u8| x as char));
    } else {
        assert(lossy_decode(bs) =~= bs.map_values(|x: u8| x as char));
    }
}

/// Relies on char::from_u32 of std: converts a scalar value to its char, and
/// returns None exactly for surrogates and values above the Unicode maximum.
pub assume_specification[ char::from_u32 ](v: u32) -> (r: Option<char>)
    ensures
        r is Some <==> (v < 0xD800 || (0xE000 <= v && v <= 0x10FFFF)),
        r matches Some(c) ==> c == v as char,
;

/// Relies on String::push of std: appends the given character to the string.
pub assume_specification[ String::push ](s: &mut String, c: char)
    ensures
        final(s)@ == old(s)@.push(c),
;

/// True when `b` is a UTF-8 continuation byte.
fn is_cont(b: u8) -> (r: bool)
    ensures
        r == is_continuation_byte(b),
{
    0x80 <= b && b <= 0xBF
}

/// Executable twin of `second_byte_ok`.
fn second_ok(b0: u8, b1: u8) -> (r: bool)
    ensures
        r == second_byte_ok(b0, b1),
{
    if b0 == 0xE0 {
        0xA0 <= b1 && b1 <= 0xBF
    } else if b0 == 0xED {
        0x80 <= b1 && b1 <= 0x9F
    } else if b0 == 0xF0 {
        0x90 <= b1 && b1 <= 0xBF
    } else if b0 == 0xF4 {
        0x80 <= b1 && b1 <= 0x8F
    } else {
        is_cont(b1)
    }
}

/// Performs one decoding step at position `i` of `bytes`: returns the
/// character produced and the number of bytes consumed.
pub fn decode_step(bytes: &Vec<u8>, i: usize) -> (r: (char, usize))
    requires
        i < bytes@.len(),
    ensures
        r.0 == step_char(bytes@.skip(i as int)),
        r.1 == step_len(bytes@.skip(i as int)),
        i + r.1 <= bytes@.len(),
{
    let ghost rest = bytes@.skip(i as int);
    proof {
        assert(rest.len() == bytes@.len() - i);
        assert(rest[0] == bytes@[i as int]);
    }
    let n = bytes.len();
    let b0 = bytes[i];
    if b0 < 0x80 {
        let v = b0 as u32;
        proof {
            assert(valid_first_scalar(rest));
            assert(decode_first_scalar(rest) == (b0 & 0x7F) as u32);
            assert((b0 & 0x7F) as u32 == v) by (bit_vector)
                requires
                    b0 < 0x80,
                    v == b0 as u32,
            ;
        }
        let c = char::from_u32(v).unwrap();
        (c, 1)
    } else if 0xC2 <= b0 && b0 <= 0xDF {
        if i + 1 < n && is_cont(bytes[i + 1]) {
            let b1 = bytes[i + 1];
            let v = (((b0 & 0x1F) as u32) << 6u32) | ((b1 & 0x3F) as u32);
            proof {
                assert(rest[1] == bytes@[i + 1]);
                assert(is_leading_byte_width_2(b0) && is_continuation_byte(b1));
                assert(valid_leading_and_continuation_bytes_first_codepoint(rest));
                assert(decode_first_codepoint(rest) == v);
                assert(0x80 <= v <= 0x7FF) by (bit_vector)
                    requires
                        0xC2 <= b0 <= 0xDF,
                        0x80 <= b1 <= 0xBF,
                        v == (((b0 & 0x1F) as u32) << 6u32) | ((b1 & 0x3F) as u32),
                ;
                assert(valid_first_scalar(rest));
            }
            let c = char::from_u32(v).unwrap();
            (c, 2)
        } else {
            proof {
                assert(i + 1 < n ==> rest[1] == bytes@[i + 1]);
                assert(!valid_first_scalar(rest));
            }
            ('\u{FFFD}', 1)
        }
    } else if 0xE0 <= b0 && b0 <= 0xEF {
        if i + 1 < n && second_ok(b0, bytes[i + 1]) {
            let b1 = bytes[i + 1];
            if i + 2 < n && is_cont(bytes[i + 2]) {
                let b2 = bytes[i + 2];
                let v = (((b0 & 0x0F) as u32) << 12u32) | (((b1 & 0x3F) as u32) << 6u32) | ((b2
                    & 0x3F) as u32);
                proof {
                    assert(rest[1] == bytes@[i + 1] && rest[2] == bytes@[i + 2]);
                    assert(is_leading_byte_width_3(b0) && is_continuation_byte(b1)
                        && is_continuation_byte(b2));
                    assert(valid_leading_and_continuation_bytes_first_codepoint(rest));
                    assert(decode_first_codepoint(rest) == v);
                    assert(0x800 <= v <= 0xFFFF && !(0xD800 <= v <= 0xDFFF)) by (bit_vector)
                        requires
                            0xE0 <= b0 <= 0xEF,
                            0x80 <= b1 <= 0xBF,
                            b0 == 0xE0 ==> 0xA0 <= b1,
                            b0 == 0xED ==> b1 <= 0x9F,
                            0x80 <= b2 <= 0xBF,
                            v == (((b0 & 0x0F) as u32) << 12u32) | (((b1 & 0x3F) as u32) << 6u32)
                                | ((b2 & 0x3F) as u32),
                    ;
                    assert(valid_first_scalar(rest));
                }
                (char::from_u32(v).unwrap(), 3)
            } else {
                proof {
                    assert(rest[1] == bytes@[i + 1]);
                    assert(i + 2 < n ==> rest[2] == bytes@[i + 2]);
                    assert(!valid_first_scalar(rest));
                    assert(invalid_step_len(rest) == 2);
                }
                ('\u{FFFD}', 2)
            }
        } else {
            proof {
                assert(i + 1 < n ==> rest[1] == bytes@[i + 1]);
                assert(!valid_first_scalar(rest)) by {
                    if valid_leading_and_continuation_bytes_first_codepoint(rest) {
                        let b1 = rest[1];
                        let b2 = rest[2];
                        assert(rest.len() >= 3 && is_continuation_byte(b1)
                            && is_continuation_byte(b2));
                        assert(!second_byte_ok(b0, b1));
                        let v = decode_first_codepoint(rest);
                        assert(v == (((b0 & 0x0F) as u32) << 12u32) | (((b1 & 0x3F) as u32)
                            << 6u32) | ((b2 & 0x3F) as u32));
                        if b0 == 0xE0 {
                            assert((((b0 & 0x0F) as u32) << 12u32) | (((b1 & 0x3F) as u32)
                                << 6u32) | ((b2 & 0x3F) as u32) < 0x800) by (bit_vector)
                                requires
                                    b0 == 0xE0,
                                    0x80 <= b1 <= 0xBF,
                                    !(0xA0 <= b1 <= 0xBF),
                                    0x80 <= b2 <= 0xBF,
                            ;
                        } else {
                            assert(b0 == 0xED && 0x9F < b1 <= 0xBF);
                            assert(0xD800 <= (((b0 & 0x0F) as u32) << 12u32) | (((b1
                                & 0x3F) as u32) << 6u32) | ((b2 & 0x3F) as u32) <= 0xDFFF)
                                by (bit_vector)
                                requires
                                    b0 == 0xED,
                                    0x9F < b1 <= 0xBF,
                                    0x80 <= b2 <= 0xBF,
                            ;
                        }
                    }
                };
                assert(invalid_step_len(rest) == 1);
            }
            ('\u{FFFD}', 1)
        }
    } else if 0xF0 <= b0 && b0 <= 0xF4 {
        if i + 1 < n && second_ok(b0, bytes[i + 1]) {
            let b1 = bytes[i + 1];
            if i + 2 < n && is_cont(bytes[i + 2]) {
                let b2 = bytes[i + 2];
                if i + 3 < n && is_cont(bytes[i + 3]) {
                    let b3 = bytes[i + 3];
                    let v = (((b0 & 0x07) as u32) << 18u32) | (((b1 & 0x3F) as u32) << 12u32) | (((
                    b2 & 0x3F) as u32) << 6u32) | ((b3 & 0x3F) as u32);
                    proof {
                        assert(rest[1] == bytes@[i + 1] && rest[2] == bytes@[i + 2] && rest[3]
                            == bytes@[i + 3]);
                        assert(is_leading_byte_width_4(b0) && is_continuation_byte(b1)
                            && is_continuation_byte(b2) && is_continuation_byte(b3));
                        assert(valid_leading_and_continuation_bytes_first_codepoint(rest));
                        assert(decode_first_codepoint(rest) == v);
                        assert(0x10000 <= v <= 0x10FFFF) by (bit_vector)
                            requires
                                0xF0 <= b0 <= 0xF4,
                                0x80 <= b1 <= 0xBF,
                                b0 == 0xF0 ==> 0x90 <= b1,
                                b0 == 0xF4 ==> b1 <= 0x8F,
                                0x80 <= b2 <= 0xBF,
                                0x80 <= b3 <= 0xBF,
                                v == (((b0 & 0x07) as u32) << 18u32) | (((b1 & 0x3F) as u32)
                                    << 12u32) | (((b2 & 0x3F) as u32) << 6u32) | ((b3
                                    & 0x3F) as u32),
                        ;
                        assert(valid_first_scalar(rest));
                    }
                    (char::from_u32(v).unwrap(), 4)
                } else {
                    proof {
                        assert(rest[1] == bytes@[i + 1] && rest[2] == bytes@[i + 2]);
                        assert(i + 3 < n ==> rest[3] == bytes@[i + 3]);
                        assert(!valid_first_scalar(rest));
                        assert(invalid_step_len(rest) == 3);
                    }
                    ('\u{FFFD}', 3)
                }
            } else {
                proof {
                    assert(rest[1] == bytes@[i + 1]);
                    assert(i + 2 < n ==> rest[2] == bytes@[i + 2]);
                    assert(!valid_first_scalar(rest));
                    assert(invalid_step_len(rest) == 2);
                }
                ('\u{FFFD}', 2)
            }
        } else {
            proof {
                assert(i + 1 < n ==> rest[1] == bytes@[i + 1]);
                assert(!valid_first_scalar(rest)) by {
                    if valid_leading_and_continuation_bytes_first_codepoint(rest) {
                        let b1 = rest[1];
                        assert(rest.len() >= 4 && is_continuation_byte(b1));
                        assert(!second_byte_ok(b0, b1));
                        let b2 = rest[2];
                        let b3 = rest[3];
                        let v = decode_first_codepoint(rest);
                        assert(v == (((b0 & 0x07) as u32) << 18u32) | (((b1 & 0x3F) as u32)
                            << 12u32) | (((b2 & 0x3F) as u32) << 6u32) | ((b3 & 0x3F) as u32));
                        if b0 == 0xF0 {
                            assert((((b0 & 0x07) as u32) << 18u32) | (((b1 & 0x3F) as u32)
                                << 12u32) | (((b2 & 0x3F) as u32) << 6u32) | ((b3 & 0x3F) as u32)
                                < 0x10000) by (bit_vector)
                                requires
                                    b0 == 0xF0,
                                    0x80 <= b1 <= 0xBF,
                                    !(0x90 <= b1 <= 0xBF),
                                    0x80 <= b2 <= 0xBF,
                                    0x80 <= b3 <= 0xBF,
                            ;
                        } else {
                            assert(b0 == 0xF4 && 0x8F < b1 <= 0xBF);
                            assert((((b0 & 0x07) as u32) << 18u32) | (((b1 & 0x3F) as u32)
                                << 12u32) | (((b2 & 0x3F) as u32) << 6u32) | ((b3 & 0x3F) as u32)
                                > 0x10FFFF) by (bit_vector)
                                requires
                                    b0 == 0xF4,
                                    0x8F < b1 <= 0xBF,
                                    0x80 <= b2 <= 0xBF,
                                    0x80 <= b3 <= 0xBF,
                            ;
                        }
                    }
                };
                assert(invalid_step_len(rest) == 1);
            }
            ('\u{FFFD}', 1)
        }
    } else {
        proof {
            assert(!valid_first_scalar(rest)) by {
                if valid_leading_and_continuation_bytes_first_codepoint(rest) {
                    if is_leading_byte_width_2(b0) {
                        let b1 = rest[1];
                        assert(is_continuation_byte(b1));
                        assert(decode_first_codepoint(rest) == (((b0 & 0x1F) as u32) << 6u32) | ((
                        b1 & 0x3F) as u32));
                        assert((((b0 & 0x1F) as u32) << 6u32) | ((b1 & 0x3F) as u32) < 0x80)
                            by (bit_vector)
                            requires
                                0xC0 <= b0 <= 0xC1,
                                0x80 <= b1 <= 0xBF,
                        ;
                    } else {
                        let b1 = rest[1];
                        let b2 = rest[2];
                        let b3 = rest[3];
                        assert(is_leading_byte_width_4(b0) && 0xF5 <= b0);
                        assert(decode_first_codepoint(rest) == (((b0 & 0x07) as u32) << 18u32) | (((
                        b1 & 0x3F) as u32) << 12u32) | (((b2 & 0x3F) as u32) << 6u32) | ((b3
                            & 0x3F) as u32));
                        assert((((b0 & 0x07) as u32) << 18u32) | (((b1 & 0x3F) as u32) << 12u32)
                            | (((b2 & 0x3F) as u32) << 6u32) | ((b3 & 0x3F) as u32) > 0x10FFFF)
                            by (bit_vector)
                            requires
                                0xF5 <= b0 <= 0xF7,
                                0x80 <= b1 <= 0xBF,
                                0x80 <= b2 <= 0xBF,
                                0x80 <= b3 <= 0xBF,
                        ;
                    }
                }
            };
            assert(invalid_step_len(rest) == 1);
        }
        ('\u{FFFD}', 1)
    }
}

/// Decodes a whole chunk of raw bytes into text, replacing every maximal
/// ill-formed prefix with the replacement character. Total: every byte
/// sequence decodes.
pub fn decode_utf8_lossy(bytes: &Vec<u8>) -> (s: String)
    ensures
        s@ == lossy_decode(bytes@),
{
    let mut out = String::new();
    let mut i: usize = 0;
    proof {
        assert(bytes@.skip(0) =~= bytes@);
        assert(out@ + lossy_decode(bytes@) =~= lossy_decode(bytes@));
    }
    while i < bytes.len()
        invariant
            i <= bytes@.len(),
            out@ + lossy_decode(bytes@.skip(i as int)) == lossy_decode(bytes@),
        decreases bytes@.len() - i,
    {
        let (c, k) = decode_step(bytes, i);
        proof {
            let rest = bytes@.skip(i as int);
            lemma_step_len_bounds(rest);
            assert(rest.skip(step_len(rest)) =~= bytes@.skip(i + k));
            assert(lossy_decode(rest) == seq![step_char(rest)] + lossy_decode(
                bytes@.skip(i + k),
            ));
            assert(out@.push(c) + lossy_decode(bytes@.skip(i + k)) =~= out@ + lossy_decode(
                bytes@.skip(i as int),
            ));
        }
        out.push(c);
        i = i + k;
    }
    proof {
        assert(bytes@.skip(i as int) =~= Seq::<u8>::empty());
        assert(out@ + lossy_decode(bytes@.skip(i as int)) =~= out@);
    }
    out
}

} // verus!
