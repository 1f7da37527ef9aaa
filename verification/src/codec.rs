//! The artifact codec: a losslessly invertible binary-to-text conversion for
//! compiled artifacts, and the deterministic build-output path mapping.
//!
//! The textual form uses the usual 64-character alphabet (`A`-`Z`, `a`-`z`,
//! `0`-`9`, `+`, `/`) with `=` padding and no line breaks, so an artifact can
//! be embedded as a single string literal in generated output.

use vstd::prelude::*;
use vstd::string::*;
use crate::error::Error;

verus! {

/// The deterministic build-output location of a module's artifact:
/// `<root>/<this library's namespace>/<module>.wasm`, so a rebuild of the
/// same module name overwrites rather than accumulates.
pub fn to_output_path(root: &str, module: &str) -> (r: String)
    ensures
        r@ == root@ + "/inline_proc_macros/"@ + module@ + ".wasm"@,
{
    let mut r = root.to_owned();
    r.append("/inline_proc_macros/");
    r.append(module);
    r.append(".wasm");
    r
}

/// The ASCII code of the padding character `=`.
pub open spec fn pad_byte() -> u8 {
    61
}

/// Whether `c` is an ASCII byte of the 64-character alphabet.
pub open spec fn is_b64(c: u8) -> bool {
    (65 <= c && c <= 90)  // 'A'..='Z'
    || (97 <= c && c <= 122)  // 'a'..='z'
    || (48 <= c && c <= 57)  // '0'..='9'
    || c == 43  // '+'
    || c == 47  // '/'
}

/// The alphabet character standing for the six-bit value `v`.
pub open spec fn b64_char_of(v: u8) -> u8
    recommends
        v < 64,
{
    if v < 26 {
        (65 + v) as u8
    } else if v < 52 {
        (97 + (v - 26)) as u8
    } else if v < 62 {
        (48 + (v - 52)) as u8
    } else if v == 62 {
        43
    } else {
        47
    }
}

/// The six-bit value an alphabet character stands for.
pub open spec fn b64_val_of(c: u8) -> u8
    recommends
        is_b64(c),
{
    if 65 <= c && c <= 90 {
        (c - 65) as u8
    } else if 97 <= c && c <= 122 {
        (c - 97 + 26) as u8
    } else if 48 <= c && c <= 57 {
        (c - 48 + 52) as u8
    } else if c == 43 {
        62
    } else {
        63
    }
}

/// The first byte encoded by a four-character group.
pub open spec fn group_byte0(c0: u8, c1: u8) -> u8 {
    (b64_val_of(c0) << 2) | (b64_val_of(c1) >> 4)
}

/// The second byte encoded by a four-character group.
pub open spec fn group_byte1(c1: u8, c2: u8) -> u8 {
    ((b64_val_of(c1) & 15) << 4) | (b64_val_of(c2) >> 2)
}

/// The third byte encoded by a four-character group.
pub open spec fn group_byte2(c2: u8, c3: u8) -> u8 {
    ((b64_val_of(c2) & 3) << 6) | b64_val_of(c3)
}

/// The textual encoding of a byte sequence: four alphabet characters for
/// each group of three bytes, with `=` padding closing a final short group.
pub open spec fn encode_bytes(s: Seq<u8>) -> Seq<u8>
    decreases s.len(),
{
    if s.len() == 0 {
        Seq::empty()
    } else if s.len() == 1 {
        seq![
            b64_char_of(s[0] >> 2),
            b64_char_of((s[0] & 3) << 4),
            pad_byte(),
            pad_byte(),
        ]
    } else if s.len() == 2 {
        seq![
            b64_char_of(s[0] >> 2),
            b64_char_of(((s[0] & 3) << 4) | (s[1] >> 4)),
            b64_char_of((s[1] & 15) << 2),
            pad_byte(),
        ]
    } else {
        seq![
            b64_char_of(s[0] >> 2),
            b64_char_of(((s[0] & 3) << 4) | (s[1] >> 4)),
            b64_char_of(((s[1] & 15) << 2) | (s[2] >> 6)),
            b64_char_of(s[2] & 63),
        ] + encode_bytes(s.skip(3))
    }
}

/// The bytes a textual encoding stands for, or `None` where the text is not
/// a well-formed encoding (length not a multiple of four, a character
/// outside the alphabet, or padding anywhere but at the very end).
pub open spec fn decode_bytes(t: Seq<u8>) -> Option<Seq<u8>>
    decreases t.len(),
{
    if t.len() == 0 {
        Some(Seq::empty())
    } else if t.len() < 4 {
        None
    } else if !(is_b64(t[0]) && is_b64(t[1])) {
        None
    } else if t[2] == pad_byte() && t[3] == pad_byte() {
        if t.len() == 4 {
            Some(seq![group_byte0(t[0], t[1])])
        } else {
            None
        }
    } else if t[2] == pad_byte() {
        None
    } else if t[3] == pad_byte() {
        if is_b64(t[2]) && t.len() == 4 {
            Some(seq![group_byte0(t[0], t[1]), group_byte1(t[1], t[2])])
        } else {
            None
        }
    } else if is_b64(t[2]) && is_b64(t[3]) {
        match decode_bytes(t.skip(4)) {
            Some(rest) => Some(
                seq![
                    group_byte0(t[0], t[1]),
                    group_byte1(t[1], t[2]),
                    group_byte2(t[2], t[3]),
                ] + rest,
            ),
            None => None,
        }
    } else {
        None
    }
}

/// A decode result with `pre` prepended to a success's bytes.
pub open spec fn prepend_decoded(pre: Seq<u8>, r: Option<Seq<u8>>) -> Option<Seq<u8>> {
    match r {
        Some(s) => Some(pre + s),
        None => None,
    }
}

/// An alphabet character always decodes back to the six-bit value it stands
/// for, and is never the padding character.
pub proof fn lemma_char_val_inverse(v: u8)
    requires
        v < 64,
    ensures
        is_b64(b64_char_of(v)),
        b64_val_of(b64_char_of(v)) == v,
        b64_char_of(v) != pad_byte(),
{
}

/// Splitting bytes into sextets and regrouping the sextets gives the bytes
/// back, for a full three-byte group; and every sextet is below 64.
proof fn lemma_regroup3(x: u8, y: u8, z: u8)
    ensures
        x >> 2 < 64,
        ((x & 3) << 4) | (y >> 4) < 64,
        ((y & 15) << 2) | (z >> 6) < 64,
        z & 63 < 64,
        ((x >> 2) << 2) | ((((x & 3) << 4) | (y >> 4)) >> 4) == x,
        (((((x & 3) << 4) | (y >> 4)) & 15) << 4) | ((((y & 15) << 2) | (z >> 6)) >> 2) == y,
        (((((y & 15) << 2) | (z >> 6)) & 3) << 6) | (z & 63) == z,
{
    assert(x >> 2 < 64
        && ((x & 3) << 4) | (y >> 4) < 64
        && ((y & 15) << 2) | (z >> 6) < 64
        && z & 63 < 64
        && ((x >> 2) << 2) | ((((x & 3) << 4) | (y >> 4)) >> 4) == x
        && (((((x & 3) << 4) | (y >> 4)) & 15) << 4) | ((((y & 15) << 2) | (z >> 6)) >> 2) == y
        && (((((y & 15) << 2) | (z >> 6)) & 3) << 6) | (z & 63) == z) by (bit_vector);
}

/// The same regrouping identities for a final two-byte group.
proof fn lemma_regroup2(x: u8, y: u8)
    ensures
        x >> 2 < 64,
        ((x & 3) << 4) | (y >> 4) < 64,
        (y & 15) << 2 < 64,
        ((x >> 2) << 2) | ((((x & 3) << 4) | (y >> 4)) >> 4) == x,
        (((((x & 3) << 4) | (y >> 4)) & 15) << 4) | (((y & 15) << 2) >> 2) == y,
{
    assert(x >> 2 < 64
        && ((x & 3) << 4) | (y >> 4) < 64
        && (y & 15) << 2 < 64
        && ((x >> 2) << 2) | ((((x & 3) << 4) | (y >> 4)) >> 4) == x
        && (((((x & 3) << 4) | (y >> 4)) & 15) << 4) | (((y & 15) << 2) >> 2) == y) by (bit_vector);
}

/// The same regrouping identities for a final one-byte group.
proof fn lemma_regroup1(x: u8)
    ensures
        x >> 2 < 64,
        (x & 3) << 4 < 64,
        ((x >> 2) << 2) | (((x & 3) << 4) >> 4) == x,
{
    assert(x >> 2 < 64
        && (x & 3) << 4 < 64
        && ((x >> 2) << 2) | (((x & 3) << 4) >> 4) == x) by (bit_vector);
}

/// Decoding is a left inverse of encoding: the textual encoding of any byte
/// sequence decodes back to exactly that sequence.
pub proof fn lemma_textual_round_trip(b: Seq<u8>)
    ensures
        decode_bytes(encode_bytes(b)) == Some(b),
    decreases b.len(),
{
    if b.len() == 0 {
        assert(b =~= Seq::<u8>::empty());
    } else if b.len() == 1 {
        let x = b[0];
        lemma_regroup1(x);
        lemma_char_val_inverse(x >> 2);
        lemma_char_val_inverse((x & 3) << 4);
        let t = encode_bytes(b);
        assert(decode_bytes(t) == Some(seq![group_byte0(t[0], t[1])]));
        assert(seq![group_byte0(t[0], t[1])] =~= b);
    } else if b.len() == 2 {
        let x = b[0];
        let y = b[1];
        lemma_regroup2(x, y);
        lemma_char_val_inverse(x >> 2);
        lemma_char_val_inverse(((x & 3) << 4) | (y >> 4));
        lemma_char_val_inverse((y & 15) << 2);
        let t = encode_bytes(b);
        assert(decode_bytes(t) == Some(seq![group_byte0(t[0], t[1]), group_byte1(t[1], t[2])]));
        assert(seq![group_byte0(t[0], t[1]), group_byte1(t[1], t[2])] =~= b);
    } else {
        let x = b[0];
        let y = b[1];
        let z = b[2];
        lemma_regroup3(x, y, z);
        lemma_char_val_inverse(x >> 2);
        lemma_char_val_inverse(((x & 3) << 4) | (y >> 4));
        lemma_char_val_inverse(((y & 15) << 2) | (z >> 6));
        lemma_char_val_inverse(z & 63);
        lemma_textual_round_trip(b.skip(3));
        let t = encode_bytes(b);
        let rest = encode_bytes(b.skip(3));
        assert(t.skip(4) =~= rest);
        assert(decode_bytes(t.skip(4)) == Some(b.skip(3)));
        assert(decode_bytes(t) == Some(
            seq![
                group_byte0(t[0], t[1]),
                group_byte1(t[1], t[2]),
                group_byte2(t[2], t[3]),
            ] + b.skip(3),
        ));
        assert(seq![
            group_byte0(t[0], t[1]),
            group_byte1(t[1], t[2]),
            group_byte2(t[2], t[3]),
        ] + b.skip(3) =~= b);
    }
}

/// The alphabet character standing for the six-bit value `v`.
fn enc_char(v: u8) -> (r: u8)
    requires
        v < 64,
    ensures
        r == b64_char_of(v),
{
    if v < 26 {
        65 + v
    } else if v < 52 {
        97 + (v - 26)
    } else if v < 62 {
        48 + (v - 52)
    } else if v == 62 {
        43
    } else {
        47
    }
}

/// The six-bit value of an alphabet character, or `None` outside the
/// alphabet.
fn dec_val(c: u8) -> (r: Option<u8>)
    ensures
        r is Some <==> is_b64(c),
        is_b64(c) ==> r == Some(b64_val_of(c)) && b64_val_of(c) < 64,
{
    if 65 <= c && c <= 90 {
        Some(c - 65)
    } else if 97 <= c && c <= 122 {
        Some(c - 97 + 26)
    } else if 48 <= c && c <= 57 {
        Some(c - 48 + 52)
    } else if c == 43 {
        Some(62)
    } else if c == 47 {
        Some(63)
    } else {
        None
    }
}

/// Encodes a compiled artifact's bytes into their textual form.
pub fn encode_textual(b: &Vec<u8>) -> (r: Vec<u8>)
    ensures
        r@ == encode_bytes(b@),
{
    let mut out: Vec<u8> = Vec::new();
    let mut i: usize = 0;
    proof {
        assert(b@.skip(0) =~= b@);
        assert(Seq::<u8>::empty() + encode_bytes(b@) =~= encode_bytes(b@));
    }
    while b.len() - i >= 3
        invariant
            i <= b.len(),
            encode_bytes(b@) == out@ + encode_bytes(b@.skip(i as int)),
        decreases b.len() - i,
    {
        let ghost pre = out@;
        let x = b[i];
        let y = b[i + 1];
        let z = b[i + 2];
        proof {
            lemma_regroup3(x, y, z);
            assert(b@.skip(i as int)[0] == x);
            assert(b@.skip(i as int)[1] == y);
            assert(b@.skip(i as int)[2] == z);
            assert(b@.skip(i as int).skip(3) =~= b@.skip(i as int + 3));
        }
        out.push(enc_char(x >> 2));
        out.push(enc_char(((x & 3) << 4) | (y >> 4)));
        out.push(enc_char(((y & 15) << 2) | (z >> 6)));
        out.push(enc_char(z & 63));
        proof {
            let g = seq![
                b64_char_of(x >> 2),
                b64_char_of(((x & 3) << 4) | (y >> 4)),
                b64_char_of(((y & 15) << 2) | (z >> 6)),
                b64_char_of(z & 63),
            ];
            assert(out@ =~= pre + g);
            assert(encode_bytes(b@.skip(i as int)) == g + encode_bytes(b@.skip(i as int + 3)));
            assert(pre + (g + encode_bytes(b@.skip(i as int + 3)))
                =~= (pre + g) + encode_bytes(b@.skip(i as int + 3)));
        }
        i = i + 3;
    }
    let ghost pre = out@;
    if b.len() - i == 1 {
        let x = b[i];
        proof {
            lemma_regroup1(x);
            assert(b@.skip(i as int) =~= seq![x]);
        }
        out.push(enc_char(x >> 2));
        out.push(enc_char((x & 3) << 4));
        out.push(61);
        out.push(61);
        proof {
            assert(out@ =~= pre + encode_bytes(b@.skip(i as int)));
        }
    } else if b.len() - i == 2 {
        let x = b[i];
        let y = b[i + 1];
        proof {
            lemma_regroup2(x, y);
            assert(b@.skip(i as int) =~= seq![x, y]);
        }
        out.push(enc_char(x >> 2));
        out.push(enc_char(((x & 3) << 4) | (y >> 4)));
        out.push(enc_char((y & 15) << 2));
        out.push(61);
        proof {
            assert(out@ =~= pre + encode_bytes(b@.skip(i as int)));
        }
    } else {
        proof {
            assert(b@.skip(i as int) =~= Seq::<u8>::empty());
            assert(out@ =~= pre + encode_bytes(b@.skip(i as int)));
        }
    }
    out
}

/// Decodes a textual artifact encoding back into the artifact's bytes.
/// Succeeds exactly on well-formed encodings.
pub fn decode_textual(t: &Vec<u8>) -> (r: Result<Vec<u8>, Error>)
    ensures
        r is Ok <==> decode_bytes(t@) is Some,
        (r matches Ok(v) ==> decode_bytes(t@) == Some(v@)),
        (r matches Err(e) ==> e@ is InvalidArtifactEncoding),
{
    let mut out: Vec<u8> = Vec::new();
    let mut i: usize = 0;
    proof {
        assert(t@.skip(0) =~= t@);
        if decode_bytes(t@) is Some {
            assert(Seq::<u8>::empty() + decode_bytes(t@).unwrap() =~= decode_bytes(t@).unwrap());
        }
    }
    while t.len() - i >= 4
        invariant
            i <= t.len(),
            decode_bytes(t@) == prepend_decoded(out@, decode_bytes(t@.skip(i as int))),
        decreases t.len() - i,
    {
        let ghost pre = out@;
        let c0 = t[i];
        let c1 = t[i + 1];
        let c2 = t[i + 2];
        let c3 = t[i + 3];
        proof {
            assert(t@.skip(i as int)[0] == c0);
            assert(t@.skip(i as int)[1] == c1);
            assert(t@.skip(i as int)[2] == c2);
            assert(t@.skip(i as int)[3] == c3);
            assert(t@.skip(i as int).skip(4) =~= t@.skip(i as int + 4));
        }
        let w0 = dec_val(c0);
        let w1 = dec_val(c1);
        let (v0, v1) = match (w0, w1) {
            (Some(v0), Some(v1)) => (v0, v1),
            _ => {
                return Err(Error::InvalidArtifactEncoding);
            },
        };
        if c2 == 61 && c3 == 61 {
            if t.len() - i == 4 {
                out.push((v0 << 2) | (v1 >> 4));
                proof {
                    assert(decode_bytes(t@.skip(i as int)) == Some(seq![group_byte0(c0, c1)]));
                    assert(out@ =~= pre + seq![group_byte0(c0, c1)]);
                }
                return Ok(out);
            } else {
                return Err(Error::InvalidArtifactEncoding);
            }
        } else if c2 == 61 {
            return Err(Error::InvalidArtifactEncoding);
        } else if c3 == 61 {
            let v2 = match dec_val(c2) {
                Some(v2) => v2,
                None => {
                    return Err(Error::InvalidArtifactEncoding);
                },
            };
            if t.len() - i == 4 {
                out.push((v0 << 2) | (v1 >> 4));
                out.push(((v1 & 15) << 4) | (v2 >> 2));
                proof {
                    assert(decode_bytes(t@.skip(i as int))
                        == Some(seq![group_byte0(c0, c1), group_byte1(c1, c2)]));
                    assert(out@ =~= pre + seq![group_byte0(c0, c1), group_byte1(c1, c2)]);
                }
                return Ok(out);
            } else {
                return Err(Error::InvalidArtifactEncoding);
            }
        } else {
            let (v2, v3) = match (dec_val(c2), dec_val(c3)) {
                (Some(v2), Some(v3)) => (v2, v3),
                _ => {
                    return Err(Error::InvalidArtifactEncoding);
                },
            };
            out.push((v0 << 2) | (v1 >> 4));
            out.push(((v1 & 15) << 4) | (v2 >> 2));
            out.push(((v2 & 3) << 6) | v3);
            proof {
                let g = seq![group_byte0(c0, c1), group_byte1(c1, c2), group_byte2(c2, c3)];
                assert(out@ =~= pre + g);
                if decode_bytes(t@.skip(i as int + 4)) is Some {
                    let rest = decode_bytes(t@.skip(i as int + 4)).unwrap();
                    assert(decode_bytes(t@.skip(i as int)) == Some(g + rest));
                    assert(pre + (g + rest) =~= (pre + g) + rest);
                } else {
                    assert(decode_bytes(t@.skip(i as int)) is None);
                }
            }
            i = i + 4;
        }
    }
    if t.len() - i == 0 {
        proof {
            assert(t@.skip(i as int) =~= Seq::<u8>::empty());
            assert(out@ + Seq::<u8>::empty() =~= out@);
        }
        Ok(out)
    } else {
        proof {
            assert(t@.skip(i as int).len() < 4);
        }
        Err(Error::InvalidArtifactEncoding)
    }
}

} // verus!
