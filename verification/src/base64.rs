//! Verified base64 codec for the secret wire format exchanged with the
//! external router engine.
//!
//! The engine's encoder uses the base64 alphabet with `-` and `~` in the
//! last two positions (instead of `+` and `/`) and `=` padding; secrets
//! travel in that form and are decoded back to raw bytes before staging.
//! The codec is strict: the input length must be a multiple of four and
//! padding may appear only at the very end.

use vstd::prelude::*;

use crate::error::StageError;
use crate::text::push_char;

verus! {

/// The alphabet character for a six-bit value: `A`-`Z`, `a`-`z`,
/// `0`-`9`, `-`, `~`.
pub open spec fn b64_char(v: int) -> char
    recommends
        0 <= v < 64,
{
    if v < 26 {
        (65 + v) as char
    } else if v < 52 {
        (71 + v) as char
    } else if v < 62 {
        (v - 4) as char
    } else if v == 62 {
        '-'
    } else {
        '~'
    }
}

/// The six-bit value of an alphabet character, or -1 for any character
/// outside the alphabet (`=` included).
pub open spec fn b64_val(c: char) -> int {
    let n = c as int;
    if 65 <= n && n <= 90 {
        n - 65
    } else if 97 <= n && n <= 122 {
        n - 71
    } else if 48 <= n && n <= 57 {
        n + 4
    } else if n == 45 {
        62
    } else if n == 126 {
        63
    } else {
        -1
    }
}

/// The alphabet maps are inverse to each other, and no alphabet
/// character is the padding character.
pub proof fn lemma_b64_char_val(v: int)
    requires
        0 <= v < 64,
    ensures
        b64_val(b64_char(v)) == v,
        b64_char(v) != '=',
{
}

/// The four characters encoding one three-byte group.
pub open spec fn enc3(b0: u8, b1: u8, b2: u8) -> Seq<char> {
    seq![
        b64_char(b0 as int / 4),
        b64_char((b0 as int % 4) * 16 + b1 as int / 16),
        b64_char((b1 as int % 16) * 4 + b2 as int / 64),
        b64_char(b2 as int % 64),
    ]
}

/// The base64 text encoding a byte sequence, with `=` padding for a
/// trailing group of one or two bytes.
pub open spec fn spec_encode(s: Seq<u8>) -> Seq<char>
    decreases s.len(),
{
    if s.len() == 0 {
        Seq::empty()
    } else if s.len() == 1 {
        seq![b64_char(s[0] as int / 4), b64_char((s[0] as int % 4) * 16), '=', '=']
    } else if s.len() == 2 {
        seq![
            b64_char(s[0] as int / 4),
            b64_char((s[0] as int % 4) * 16 + s[1] as int / 16),
            b64_char((s[1] as int % 16) * 4),
            '=',
        ]
    } else {
        enc3(s[0], s[1], s[2]) + spec_encode(s.skip(3))
    }
}

/// The bytes a base64 text decodes to, or `None` if the text is not
/// valid base64: a length that is a multiple of four, alphabet
/// characters throughout, and `=` padding only at the very end.
pub open spec fn spec_decode(s: Seq<char>) -> Option<Seq<u8>>
    decreases s.len(),
{
    if s.len() == 0 {
        Some(Seq::empty())
    } else if s.len() < 4 {
        None
    } else {
        let v0 = b64_val(s[0]);
        let v1 = b64_val(s[1]);
        if v0 < 0 || v1 < 0 {
            None
        } else if s[2] == '=' {
            if s.len() == 4 && s[3] == '=' {
                Some(seq![(v0 * 4 + v1 / 16) as u8])
            } else {
                None
            }
        } else {
            let v2 = b64_val(s[2]);
            if v2 < 0 {
                None
            } else if s[3] == '=' {
                if s.len() == 4 {
                    Some(seq![(v0 * 4 + v1 / 16) as u8, ((v1 % 16) * 16 + v2 / 4) as u8])
                } else {
                    None
                }
            } else {
                let v3 = b64_val(s[3]);
                if v3 < 0 {
                    None
                } else {
                    match spec_decode(s.skip(4)) {
                        Option::Some(rest) => Some(
                            seq![
                                (v0 * 4 + v1 / 16) as u8,
                                ((v1 % 16) * 16 + v2 / 4) as u8,
                                ((v2 % 4) * 64 + v3) as u8,
                            ] + rest,
                        ),
                        Option::None => None,
                    }
                }
            }
        }
    }
}

/// The text is valid base64.
pub open spec fn valid_b64(s: Seq<char>) -> bool {
    spec_decode(s) is Some
}

/// Round trip: decoding the encoding of any byte sequence gives back
/// exactly that sequence. In particular every encoding is valid base64.
pub proof fn lemma_decode_encode(s: Seq<u8>)
    ensures
        spec_decode(spec_encode(s)) == Some(s),
    decreases s.len(),
{
    if s.len() == 0 {
        assert(spec_encode(s) =~= Seq::<char>::empty());
        assert(spec_decode(spec_encode(s)) == Some(Seq::<u8>::empty()));
        assert(s =~= Seq::<u8>::empty());
    } else if s.len() == 1 {
        let b0 = s[0] as int;
        let v0 = b0 / 4;
        let v1 = (b0 % 4) * 16;
        lemma_b64_char_val(v0);
        lemma_b64_char_val(v1);
        let e = spec_encode(s);
        assert(e.len() == 4);
        assert(b64_val(e[0]) == v0 && b64_val(e[1]) == v1);
        assert(e[2] == '=' && e[3] == '=');
        assert(v0 * 4 + v1 / 16 == b0);
        assert(spec_decode(e) == Some(seq![s[0]]));
        assert(seq![s[0]] =~= s);
    } else if s.len() == 2 {
        let b0 = s[0] as int;
        let b1 = s[1] as int;
        let v0 = b0 / 4;
        let v1 = (b0 % 4) * 16 + b1 / 16;
        let v2 = (b1 % 16) * 4;
        lemma_b64_char_val(v0);
        lemma_b64_char_val(v1);
        lemma_b64_char_val(v2);
        let e = spec_encode(s);
        assert(e.len() == 4);
        assert(b64_val(e[0]) == v0 && b64_val(e[1]) == v1 && b64_val(e[2]) == v2);
        assert(e[2] != '=' && e[3] == '=');
        assert(v0 * 4 + v1 / 16 == b0);
        assert((v1 % 16) * 16 + v2 / 4 == b1);
        assert(spec_decode(e) == Some(seq![s[0], s[1]]));
        assert(seq![s[0], s[1]] =~= s);
    } else {
        let b0 = s[0] as int;
        let b1 = s[1] as int;
        let b2 = s[2] as int;
        let v0 = b0 / 4;
        let v1 = (b0 % 4) * 16 + b1 / 16;
        let v2 = (b1 % 16) * 4 + b2 / 64;
        let v3 = b2 % 64;
        lemma_b64_char_val(v0);
        lemma_b64_char_val(v1);
        lemma_b64_char_val(v2);
        lemma_b64_char_val(v3);
        let e = spec_encode(s);
        let head = enc3(s[0], s[1], s[2]);
        let tail = spec_encode(s.skip(3));
        assert(e == head + tail);
        lemma_decode_encode(s.skip(3));
        assert(tail.len() >= 4 || tail.len() == 0) by {
            if s.skip(3).len() == 0 {
            } else {
                assert(spec_decode(tail) is Some);
                if tail.len() < 4 {
                    assert(spec_decode(tail) is None);
                }
            }
        }
        assert(e.len() >= 4);
        assert(e[0] == head[0] && e[1] == head[1] && e[2] == head[2] && e[3] == head[3]);
        assert(b64_val(e[0]) == v0 && b64_val(e[1]) == v1);
        assert(b64_val(e[2]) == v2 && b64_val(e[3]) == v3);
        assert(e[2] != '=' && e[3] != '=');
        assert(e.skip(4) =~= tail);
        assert(v0 * 4 + v1 / 16 == b0);
        assert((v1 % 16) * 16 + v2 / 4 == b1);
        assert((v2 % 4) * 64 + v3 == b2);
        assert(spec_decode(e) == Some(seq![s[0], s[1], s[2]] + s.skip(3)));
        assert(seq![s[0], s[1], s[2]] + s.skip(3) =~= s);
    }
}

/// The six-bit value of a character, with 64 standing for "not in the
/// alphabet".
fn b64_val_of(c: char) -> (r: u8)
    ensures
        b64_val(c) >= 0 ==> r as int == b64_val(c),
        b64_val(c) < 0 ==> r == 64,
{
    let n = c as u32;
    if 65 <= n && n <= 90 {
        (n - 65) as u8
    } else if 97 <= n && n <= 122 {
        (n - 71) as u8
    } else if 48 <= n && n <= 57 {
        (n + 4) as u8
    } else if n == 45 {
        62
    } else if n == 126 {
        63
    } else {
        64
    }
}

/// The alphabet character of a six-bit value.
fn b64_char_of(v: u8) -> (c: char)
    requires
        v < 64,
    ensures
        c == b64_char(v as int),
{
    if v < 26 {
        (65 + v) as char
    } else if v < 52 {
        (71 + v) as char
    } else if v < 62 {
        (v - 4) as char
    } else if v == 62 {
        '-'
    } else {
        '~'
    }
}

/// Decodes base64 text to the raw bytes it stands for; fails with
/// `DecodeFailed` exactly on text that is not valid base64, and never
/// returns partially decoded bytes.
pub fn decode(s: &str) -> (r: Result<Vec<u8>, StageError>)
    ensures
        match r {
            Ok(v) => spec_decode(s@) == Some(v@),
            Err(e) => e is DecodeFailed && !valid_b64(s@),
        },
{
    let n = s.unicode_len();
    let mut out: Vec<u8> = Vec::new();
    let mut i: usize = 0;
    proof {
        assert(s@.skip(0) =~= s@);
        if spec_decode(s@) is Some {
            assert(out@ + spec_decode(s@)->Some_0 =~= spec_decode(s@)->Some_0);
        }
    }
    while i < n
        invariant
            i <= n,
            n == s@.len(),
            spec_decode(s@) == (match spec_decode(s@.skip(i as int)) {
                Option::Some(rest) => Option::Some(out@ + rest),
                Option::None => Option::<Seq<u8>>::None,
            }),
        decreases n - i,
    {
        if n - i < 4 {
            return Err(StageError::DecodeFailed);
        }
        let c0 = s.get_char(i);
        let c1 = s.get_char(i + 1);
        let c2 = s.get_char(i + 2);
        let c3 = s.get_char(i + 3);
        let v0 = b64_val_of(c0);
        let v1 = b64_val_of(c1);
        proof {
            assert(s@.skip(i as int)[0] == s@[i as int]);
            assert(s@.skip(i as int)[1] == s@[i as int + 1]);
            assert(s@.skip(i as int)[2] == s@[i as int + 2]);
            assert(s@.skip(i as int)[3] == s@[i as int + 3]);
        }
        if v0 == 64 || v1 == 64 {
            return Err(StageError::DecodeFailed);
        }
        if c2 == '=' {
            if i + 4 == n && c3 == '=' {
                out.push(v0 * 4 + v1 / 16);
                i = i + 4;
                proof {
                    assert(s@.skip(i as int).len() == 0);
                    assert(spec_decode(s@.skip(i as int)) == Some(Seq::<u8>::empty()));
                    assert(out@ + Seq::<u8>::empty() =~= out@);
                }
            } else {
                return Err(StageError::DecodeFailed);
            }
        } else {
            let v2 = b64_val_of(c2);
            if v2 == 64 {
                return Err(StageError::DecodeFailed);
            }
            if c3 == '=' {
                if i + 4 == n {
                    out.push(v0 * 4 + v1 / 16);
                    out.push((v1 % 16) * 16 + v2 / 4);
                    i = i + 4;
                    proof {
                        assert(s@.skip(i as int).len() == 0);
                        assert(spec_decode(s@.skip(i as int)) == Some(Seq::<u8>::empty()));
                        assert(out@ + Seq::<u8>::empty() =~= out@);
                    }
                } else {
                    return Err(StageError::DecodeFailed);
                }
            } else {
                let v3 = b64_val_of(c3);
                if v3 == 64 {
                    return Err(StageError::DecodeFailed);
                }
                let ghost old_out = out@;
                out.push(v0 * 4 + v1 / 16);
                out.push((v1 % 16) * 16 + v2 / 4);
                out.push((v2 % 4) * 64 + v3);
                i = i + 4;
                proof {
                    assert(s@.skip(i as int - 4).skip(4) =~= s@.skip(i as int));
                    let bs = seq![
                        (b64_val(c0) * 4 + b64_val(c1) / 16) as u8,
                        ((b64_val(c1) % 16) * 16 + b64_val(c2) / 4) as u8,
                        ((b64_val(c2) % 4) * 64 + b64_val(c3)) as u8,
                    ];
                    assert(out@ =~= old_out + bs);
                    assert forall|rest: Seq<u8>| old_out + (bs + rest) =~= out@ + rest by {}
                }
            }
        }
    }
    proof {
        assert(s@.skip(n as int).len() == 0);
        assert(spec_decode(s@.skip(n as int)) == Some(Seq::<u8>::empty()));
        assert(out@ + Seq::<u8>::empty() =~= out@);
    }
    Ok(out)
}

/// Whether text is valid base64 for the engine's codec.
pub fn is_valid_b64(s: &str) -> (r: bool)
    ensures
        r == valid_b64(s@),
{
    match decode(s) {
        Ok(_) => true,
        Err(_) => false,
    }
}

/// Encodes raw bytes as base64 text.
pub fn encode(bytes: &[u8]) -> (r: String)
    ensures
        r@ == spec_encode(bytes@),
{
    let n = bytes.len();
    let mut out = String::new();
    let mut i: usize = 0;
    proof {
        assert(bytes@.skip(0) =~= bytes@);
        assert(out@ + spec_encode(bytes@) =~= spec_encode(bytes@));
    }
    while n - i >= 3
        invariant
            i <= n,
            n == bytes@.len(),
            spec_encode(bytes@) == out@ + spec_encode(bytes@.skip(i as int)),
        decreases n - i,
    {
        let b0 = bytes[i];
        let b1 = bytes[i + 1];
        let b2 = bytes[i + 2];
        let ghost old_out = out@;
        push_char(&mut out, b64_char_of(b0 / 4));
        push_char(&mut out, b64_char_of((b0 % 4) * 16 + b1 / 16));
        push_char(&mut out, b64_char_of((b1 % 16) * 4 + b2 / 64));
        push_char(&mut out, b64_char_of(b2 % 64));
        i = i + 3;
        proof {
            assert(bytes@.skip(i as int - 3)[0] == bytes@[i as int - 3]);
            assert(bytes@.skip(i as int - 3)[1] == bytes@[i as int - 2]);
            assert(bytes@.skip(i as int - 3)[2] == bytes@[i as int - 1]);
            assert(bytes@.skip(i as int - 3).skip(3) =~= bytes@.skip(i as int));
            assert(out@ =~= old_out + enc3(bytes@[i as int - 3], bytes@[i as int - 2], bytes@[i as int - 1]));
            assert(spec_encode(bytes@) =~= out@ + spec_encode(bytes@.skip(i as int)));
        }
    }
    if n - i == 1 {
        let b0 = bytes[i];
        let ghost old_out = out@;
        push_char(&mut out, b64_char_of(b0 / 4));
        push_char(&mut out, b64_char_of((b0 % 4) * 16));
        push_char(&mut out, '=');
        push_char(&mut out, '=');
        proof {
            assert(bytes@.skip(i as int)[0] == bytes@[i as int]);
            assert(out@ =~= old_out + spec_encode(bytes@.skip(i as int)));
            assert(out@ =~= spec_encode(bytes@));
        }
    } else if n - i == 2 {
        let b0 = bytes[i];
        let b1 = bytes[i + 1];
        let ghost old_out = out@;
        push_char(&mut out, b64_char_of(b0 / 4));
        push_char(&mut out, b64_char_of((b0 % 4) * 16 + b1 / 16));
        push_char(&mut out, b64_char_of((b1 % 16) * 4));
        push_char(&mut out, '=');
        proof {
            assert(bytes@.skip(i as int)[0] == bytes@[i as int]);
            assert(bytes@.skip(i as int)[1] == bytes@[i as int + 1]);
            assert(out@ =~= old_out + spec_encode(bytes@.skip(i as int)));
            assert(out@ =~= spec_encode(bytes@));
        }
    } else {
        proof {
            assert(bytes@.skip(i as int).len() == 0);
            assert(spec_encode(bytes@.skip(i as int)) =~= Seq::<char>::empty());
            assert(out@ =~= spec_encode(bytes@));
        }
    }
    out
}

} // verus!
