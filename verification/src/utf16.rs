//! UTF-16 encoding and decoding of Unicode scalar values.
use vstd::prelude::*;

verus! {

/// A high (leading) surrogate code unit.
pub open spec fn is_high_surrogate(u: u16) -> bool {
    0xD800 <= u && u <= 0xDBFF
}

/// A low (trailing) surrogate code unit.
pub open spec fn is_low_surrogate(u: u16) -> bool {
    0xDC00 <= u && u <= 0xDFFF
}

/// The UTF-16 code units of one character.
pub open spec fn encode_char_utf16(c: char) -> Seq<u16> {
    let v = c as int;
    if v < 0x10000 {
        seq![v as u16]
    } else {
        let w = v - 0x10000;
        seq![(0xD800 + w / 0x400) as u16, (0xDC00 + w % 0x400) as u16]
    }
}

/// The UTF-16 code units of a character sequence.
pub open spec fn encode_utf16(s: Seq<char>) -> Seq<u16>
    decreases s.len(),
{
    if s.len() == 0 {
        seq![]
    } else {
        encode_char_utf16(s[0]) + encode_utf16(s.drop_first())
    }
}

/// The characters of a code-unit sequence, or `None` when it is not well-formed UTF-16
/// (an unpaired surrogate anywhere in it).
pub open spec fn decode_utf16(u: Seq<u16>) -> Option<Seq<char>>
    decreases u.len(),
{
    if u.len() == 0 {
        Some(seq![])
    } else if !is_high_surrogate(u[0]) && !is_low_surrogate(u[0]) {
        match decode_utf16(u.skip(1)) {
            Some(rest) => Some(seq![u[0] as char] + rest),
            None => None,
        }
    } else if is_high_surrogate(u[0]) && u.len() >= 2 && is_low_surrogate(u[1]) {
        let c = (0x10000 + (u[0] - 0xD800) * 0x400 + (u[1] - 0xDC00)) as char;
        match decode_utf16(u.skip(2)) {
            Some(rest) => Some(seq![c] + rest),
            None => None,
        }
    } else {
        None
    }
}

/// Appending a character appends its code units.
pub proof fn lemma_encode_push(s: Seq<char>, c: char)
    ensures
        encode_utf16(s.push(c)) == encode_utf16(s) + encode_char_utf16(c),
    decreases s.len(),
{
    if s.len() == 0 {
        assert(s.push(c).drop_first() =~= seq![]);
        assert(encode_utf16(s.push(c)) =~= encode_char_utf16(c) + encode_utf16(seq![]));
    } else {
        assert(s.push(c).drop_first() =~= s.drop_first().push(c));
        lemma_encode_push(s.drop_first(), c);
        assert(encode_utf16(s.push(c)) =~= encode_char_utf16(s[0]) + (encode_utf16(s.drop_first()) + encode_char_utf16(c)));
    }
}

/// One character round-trips through its code units.
proof fn lemma_decode_encode_char(c: char, tail: Seq<u16>)
    ensures
        decode_utf16(encode_char_utf16(c) + tail) == (match decode_utf16(tail) {
            Some(rest) => Some(seq![c] + rest),
            None => None::<Seq<char>>,
        }),
{
    let v = c as int;
    let u = encode_char_utf16(c) + tail;
    if v < 0x10000 {
        assert(u[0] == v as u16);
        assert(u.skip(1) =~= tail);
        assert((u[0] as char) == c);
    } else {
        let w = v - 0x10000;
        assert(0 <= w < 0x100000);
        assert(0 <= w / 0x400 < 0x400) by (nonlinear_arith)
            requires 0 <= w < 0x100000;
        assert(0 <= w % 0x400 < 0x400) by (nonlinear_arith)
            requires 0 <= w;
        assert(w == (w / 0x400) * 0x400 + w % 0x400) by (nonlinear_arith);
        assert(u[0] == (0xD800 + w / 0x400) as u16);
        assert(u[1] == (0xDC00 + w % 0x400) as u16);
        assert(u.skip(2) =~= tail);
        let d = 0x10000 + (u[0] - 0xD800) * 0x400 + (u[1] - 0xDC00);
        assert(d == v);
        assert((d as char) == c);
    }
}

/// Decoding the encoding of a character sequence gives it back.
pub proof fn lemma_decode_encode(s: Seq<char>)
    ensures
        decode_utf16(encode_utf16(s)) == Some(s),
    decreases s.len(),
{
    if s.len() == 0 {
    } else {
        lemma_decode_encode(s.drop_first());
        lemma_decode_encode_char(s[0], encode_utf16(s.drop_first()));
        assert(seq![s[0]] + s.drop_first() =~= s);
    }
}

/// Encoding the decoding of well-formed code units gives them back.
pub proof fn lemma_encode_decode(u: Seq<u16>)
    requires
        decode_utf16(u) is Some,
    ensures
        encode_utf16(decode_utf16(u)->0) == u,
    decreases u.len(),
{
    if u.len() == 0 {
    } else if !is_high_surrogate(u[0]) && !is_low_surrogate(u[0]) {
        lemma_encode_decode(u.skip(1));
        let c = u[0] as char;
        assert(c as int == u[0] as int);
        let cs = decode_utf16(u)->0;
        assert(cs[0] == c);
        assert(cs.drop_first() =~= decode_utf16(u.skip(1))->0);
        assert(encode_char_utf16(c) =~= seq![u[0]]);
        assert(u =~= seq![u[0]] + u.skip(1));
    } else {
        lemma_encode_decode(u.skip(2));
        let hi = u[0] as int - 0xD800;
        let lo = u[1] as int - 0xDC00;
        let d = 0x10000 + hi * 0x400 + lo;
        assert(0 <= hi < 0x400 && 0 <= lo < 0x400);
        assert(0x10000 <= d <= 0x10FFFF) by (nonlinear_arith)
            requires 0 <= hi < 0x400, 0 <= lo < 0x400, d == 0x10000 + hi * 0x400 + lo;
        let c = d as char;
        assert(c as int == d);
        let w = d - 0x10000;
        assert(w / 0x400 == hi && w % 0x400 == lo) by (nonlinear_arith)
            requires 0 <= hi < 0x400, 0 <= lo < 0x400, w == hi * 0x400 + lo;
        let cs = decode_utf16(u)->0;
        assert(cs[0] == c);
        assert(cs.drop_first() =~= decode_utf16(u.skip(2))->0);
        assert(encode_char_utf16(c) =~= seq![u[0], u[1]]);
        assert(u =~= seq![u[0], u[1]] + u.skip(2));
    }
}

/// Encodes the characters of `s` as UTF-16 code units.
pub fn encode_str_utf16(s: &str) -> (r: Vec<u16>)
    ensures
        r@ == encode_utf16(s@),
{
    let mut out: Vec<u16> = Vec::new();
    let n = s.unicode_len();
    let mut i: usize = 0;
    while i < n
        invariant
            n == s@.len(),
            i <= n,
            out@ == encode_utf16(s@.take(i as int)),
        decreases n - i,
    {
        let c = s.get_char(i);
        let v: u32 = c as u32;
        proof {
            lemma_encode_push(s@.take(i as int), c);
            assert(s@.take(i as int).push(c) =~= s@.take(i + 1));
        }
        if v < 0x10000 {
            out.push(v as u16);
        } else {
            let w: u32 = v - 0x10000;
            out.push((0xD800 + w / 0x400) as u16);
            out.push((0xDC00 + w % 0x400) as u16);
        }
        assert(out@ =~= encode_utf16(s@.take(i as int)) + encode_char_utf16(c));
        i = i + 1;
    }
    assert(s@.take(n as int) =~= s@);
    out
}

} // verus!
