//! String marshalling across the encoding boundary.
//!
//! Host text is UTF-8 (`String` / `&str`); the foreign runtime's native
//! string representation is a buffer of UTF-16 code units.  Marshalling in
//! transcodes host characters to UTF-16; marshalling out transcodes back,
//! replacing unpaired surrogates with U+FFFD, as the lossy conversion the
//! host performs does.  [`lemma_utf16_round_trip`] shows the two directions
//! compose to the identity on every host string.

use vstd::prelude::*;

verus! {

/// The replacement character U+FFFD used by lossy decoding.
pub open spec fn replacement_char() -> char {
    0xFFFDu32 as char
}

/// Code points representable by a Rust `char`: Unicode scalar values, that
/// is everything up to U+10FFFF except the surrogate range.
pub open spec fn is_unicode_scalar(v: u32) -> bool {
    v < 0xD800 || (0xE000 <= v <= 0x10FFFF)
}

/// A UTF-16 code unit reserved for the first half of a surrogate pair.
pub open spec fn is_high_surrogate(u: u16) -> bool {
    0xD800 <= u < 0xDC00
}

/// A UTF-16 code unit reserved for the second half of a surrogate pair.
pub open spec fn is_low_surrogate(u: u16) -> bool {
    0xDC00 <= u < 0xE000
}

/// The UTF-16 encoding of one character: itself if it lies in the basic
/// plane, a surrogate pair otherwise.
pub open spec fn encode_char_utf16(c: char) -> Seq<u16> {
    let v = c as u32;
    if v < 0x10000 {
        seq![v as u16]
    } else {
        let w = v - 0x10000;
        seq![(0xD800 + w / 0x400) as u16, (0xDC00 + w % 0x400) as u16]
    }
}

/// The UTF-16 encoding of a character sequence.
pub open spec fn encode_utf16(s: Seq<char>) -> Seq<u16>
    decreases s.len(),
{
    if s.len() == 0 {
        Seq::empty()
    } else {
        encode_char_utf16(s[0]) + encode_utf16(s.drop_first())
    }
}

/// The scalar value denoted by a surrogate pair.
pub open spec fn combine_surrogates(hi: u16, lo: u16) -> u32 {
    (0x10000 + (hi - 0xD800) * 0x400 + (lo - 0xDC00)) as u32
}

/// Lossy UTF-16 decoding: a well-formed surrogate pair becomes the scalar it
/// denotes, an unpaired surrogate becomes U+FFFD, and every other unit is a
/// basic-plane character already.
pub open spec fn decode_utf16(u: Seq<u16>) -> Seq<char>
    decreases u.len(),
{
    if u.len() == 0 {
        Seq::empty()
    } else if is_high_surrogate(u[0]) {
        if u.len() >= 2 && is_low_surrogate(u[1]) {
            seq![combine_surrogates(u[0], u[1]) as char] + decode_utf16(u.skip(2))
        } else {
            seq![replacement_char()] + decode_utf16(u.drop_first())
        }
    } else if is_low_surrogate(u[0]) {
        seq![replacement_char()] + decode_utf16(u.drop_first())
    } else {
        seq![(u[0] as u32) as char] + decode_utf16(u.drop_first())
    }
}

/// Relies on str::chars: it yields the characters of the string, in order.
#[verifier::external_body]
pub(crate) fn chars_of(s: &str) -> (r: Vec<char>)
    ensures
        r@ == s@,
{
    s.chars().collect()
}

/// Relies on FromIterator<char> for String: collecting characters yields the
/// string holding exactly those characters, in order.
#[verifier::external_body]
pub(crate) fn string_of_chars(cs: &Vec<char>) -> (r: String)
    ensures
        r@ == cs@,
{
    cs.iter().collect()
}

/// Relies on str's PartialEq: two string slices are equal exactly when
/// their character sequences are.
#[verifier::external_body]
pub(crate) fn str_eq(a: &str, b: &str) -> (r: bool)
    ensures
        r == (a@ == b@),
{
    a == b
}

/// Relies on char::from_u32: it returns the character with the given code
/// for every code that is a Unicode scalar value.
#[verifier::external_body]
pub(crate) fn char_from_u32(v: u32) -> (c: char)
    requires
        is_unicode_scalar(v),
    ensures
        c as u32 == v,
{
    match char::from_u32(v) {
        Some(c) => c,
        None => '?',
    }
}

/// Appending one character to a string extends its encoding by the
/// character's own encoding.
pub proof fn lemma_encode_utf16_push(s: Seq<char>, c: char)
    ensures
        encode_utf16(s.push(c)) == encode_utf16(s) + encode_char_utf16(c),
    decreases s.len(),
{
    if s.len() == 0 {
        assert(s.push(c)[0] == c);
        assert(s.push(c).drop_first() =~= Seq::<char>::empty());
        assert(encode_utf16(s.push(c).drop_first()) == Seq::<u16>::empty());
        assert(encode_utf16(s.push(c)) == encode_char_utf16(c) + Seq::<u16>::empty());
        assert(encode_char_utf16(c) + Seq::<u16>::empty() =~= encode_char_utf16(c));
        assert(encode_utf16(s) + encode_char_utf16(c) =~= encode_char_utf16(c));
    } else {
        assert(s.push(c).drop_first() =~= s.drop_first().push(c));
        lemma_encode_utf16_push(s.drop_first(), c);
        assert(encode_utf16(s.push(c)) == encode_char_utf16(s[0]) + (encode_utf16(s.drop_first())
            + encode_char_utf16(c)));
        assert(encode_utf16(s.push(c)) =~= encode_utf16(s) + encode_char_utf16(c));
    }
}

/// Transcode host text into the foreign runtime's UTF-16 representation.
pub fn utf16_of_str(s: &str) -> (r: Vec<u16>)
    ensures
        r@ == encode_utf16(s@),
{
    let cs = chars_of(s);
    let mut r: Vec<u16> = Vec::new();
    let mut i: usize = 0;
    while i < cs.len()
        invariant
            i <= cs.len(),
            cs@ == s@,
            r@ == encode_utf16(s@.take(i as int)),
        decreases cs.len() - i,
    {
        let c = cs[i];
        let v = c as u32;
        proof {
            vstd::utf8::char_is_scalar(c);
            lemma_encode_utf16_push(s@.take(i as int), c);
            assert(s@.take(i as int).push(c) =~= s@.take(i + 1));
        }
        if v < 0x10000 {
            r.push(v as u16);
        } else {
            let w = v - 0x10000;
            assert(w / 0x400 <= 0x3FF && w % 0x400 <= 0x3FF) by (nonlinear_arith)
                requires
                    w <= 0xFFFFF,
            ;
            r.push((0xD800 + w / 0x400) as u16);
            r.push((0xDC00 + w % 0x400) as u16);
        }
        i = i + 1;
    }
    proof {
        assert(s@.take(cs@.len() as int) =~= s@);
    }
    r
}

/// Transcode a foreign UTF-16 buffer back into host text, lossily.
pub fn str_of_utf16(u: &Vec<u16>) -> (r: String)
    ensures
        r@ == decode_utf16(u@),
{
    let mut cs: Vec<char> = Vec::new();
    let mut i: usize = 0;
    proof {
        assert(u@.skip(0) =~= u@);
        assert(Seq::<char>::empty() + decode_utf16(u@) =~= decode_utf16(u@));
    }
    while i < u.len()
        invariant
            i <= u@.len(),
            cs@ + decode_utf16(u@.skip(i as int)) == decode_utf16(u@),
        decreases u.len() - i,
    {
        let unit = u[i];
        let ghost rest = u@.skip(i as int);
        assert(rest[0] == u@[i as int]);
        if 0xD800 <= unit && unit < 0xDC00 {
            if i + 1 < u.len() && 0xDC00 <= u[i + 1] && u[i + 1] < 0xE000 {
                let lo = u[i + 1];
                assert(rest.len() >= 2 && rest[1] == u@[i + 1]);
                let v = 0x10000 + (unit as u32 - 0xD800) * 0x400 + (lo as u32 - 0xDC00);
                assert(v == combine_surrogates(unit, lo)) by (nonlinear_arith)
                    requires
                        0xD800 <= unit < 0xDC00,
                        0xDC00 <= lo < 0xE000,
                        v == 0x10000 + (unit as u32 - 0xD800) * 0x400 + (lo as u32 - 0xDC00),
                ;
                assert(is_unicode_scalar(v)) by (nonlinear_arith)
                    requires
                        v == 0x10000 + (unit - 0xD800) * 0x400 + (lo - 0xDC00),
                        0xD800 <= unit < 0xDC00,
                        0xDC00 <= lo < 0xE000,
                ;
                let c = char_from_u32(v);
                proof {
                    vstd::utf8::char_u32_cast(c, v);
                    assert(rest.skip(2) =~= u@.skip(i + 2));
                }
                cs.push(c);
                i = i + 2;
            } else {
                let c = char_from_u32(0xFFFD);
                proof {
                    vstd::utf8::char_u32_cast(c, 0xFFFD);
                    assert(rest.drop_first() =~= u@.skip(i + 1));
                    if i + 1 < u@.len() {
                        assert(rest[1] == u@[i + 1]);
                    }
                }
                cs.push(c);
                i = i + 1;
            }
        } else if 0xDC00 <= unit && unit < 0xE000 {
            let c = char_from_u32(0xFFFD);
            proof {
                vstd::utf8::char_u32_cast(c, 0xFFFD);
                assert(rest.drop_first() =~= u@.skip(i + 1));
            }
            cs.push(c);
            i = i + 1;
        } else {
            let c = char_from_u32(unit as u32);
            proof {
                vstd::utf8::char_u32_cast(c, unit as u32);
                assert(rest.drop_first() =~= u@.skip(i + 1));
            }
            cs.push(c);
            i = i + 1;
        }
    }
    proof {
        assert(u@.skip(u@.len() as int) =~= Seq::<u16>::empty());
        assert(cs@ =~= decode_utf16(u@));
    }
    string_of_chars(&cs)
}

/// Lossless round trip: decoding the encoding of any host string gives the
/// string back.  Host characters are Unicode scalars, so their encodings
/// never produce an unpaired surrogate and nothing is lost.
pub proof fn lemma_utf16_round_trip(s: Seq<char>)
    ensures
        decode_utf16(encode_utf16(s)) == s,
    decreases s.len(),
{
    if s.len() == 0 {
        assert(decode_utf16(encode_utf16(s)) =~= s);
    } else {
        let c = s[0];
        let v = c as u32;
        vstd::utf8::char_is_scalar(c);
        let e = encode_utf16(s);
        let tail = encode_utf16(s.drop_first());
        lemma_utf16_round_trip(s.drop_first());
        if v < 0x10000 {
            let unit = v as u16;
            assert(!is_high_surrogate(unit) && !is_low_surrogate(unit));
            assert(e[0] == unit);
            assert(e.drop_first() =~= tail);
            vstd::utf8::char_u32_cast(c, v);
            assert(decode_utf16(e) == seq![c] + s.drop_first());
            assert(seq![c] + s.drop_first() =~= s);
        } else {
            let w = v - 0x10000;
            let hi = (0xD800 + w / 0x400) as u16;
            let lo = (0xDC00 + w % 0x400) as u16;
            assert(w / 0x400 <= 0x3FF && w % 0x400 <= 0x3FF && 0x400 * (w / 0x400) + w % 0x400
                == w) by (nonlinear_arith)
                requires
                    0 <= w <= 0xFFFFF,
            ;
            assert(is_high_surrogate(hi) && is_low_surrogate(lo));
            assert(e.len() >= 2 && e[0] == hi && e[1] == lo);
            assert(combine_surrogates(hi, lo) == v);
            vstd::utf8::char_u32_cast(c, v);
            assert(e.skip(2) =~= tail);
            assert(decode_utf16(e) == seq![c] + s.drop_first());
            assert(seq![c] + s.drop_first() =~= s);
        }
    }
}

/// A well-formed UTF-16 buffer: every high surrogate opens a pair that a
/// low surrogate closes, and no low surrogate stands alone.  Everything the
/// encoder produces is well formed, as is everything a correct foreign
/// runtime hands out.
pub open spec fn wf_utf16(u: Seq<u16>) -> bool
    decreases u.len(),
{
    if u.len() == 0 {
        true
    } else if is_high_surrogate(u[0]) {
        u.len() >= 2 && is_low_surrogate(u[1]) && wf_utf16(u.skip(2))
    } else if is_low_surrogate(u[0]) {
        false
    } else {
        wf_utf16(u.drop_first())
    }
}

/// Re-encoding what a well-formed buffer decodes to gives the buffer back:
/// marshalling an engine reply out and in again hands the engine exactly
/// the code units it produced, so the bridge adds nothing of its own to a
/// round trip.
pub proof fn lemma_utf16_reencode(u: Seq<u16>)
    requires
        wf_utf16(u),
    ensures
        encode_utf16(decode_utf16(u)) == u,
    decreases u.len(),
{
    if u.len() == 0 {
        assert(encode_utf16(decode_utf16(u)) =~= u);
    } else if is_high_surrogate(u[0]) {
        let hi = u[0];
        let lo = u[1];
        let v = combine_surrogates(hi, lo);
        assert(0x10000 <= v <= 0x10FFFF && (v - 0x10000) / 0x400 == hi - 0xD800 && (v - 0x10000)
            % 0x400 == lo - 0xDC00) by (nonlinear_arith)
            requires
                0xD800 <= hi < 0xDC00,
                0xDC00 <= lo < 0xE000,
                v == 0x10000 + (hi - 0xD800) * 0x400 + (lo - 0xDC00),
        ;
        assert(is_unicode_scalar(v));
        let c = v as char;
        assert(c as u32 == v);
        lemma_utf16_reencode(u.skip(2));
        let d = decode_utf16(u);
        assert(d == seq![c] + decode_utf16(u.skip(2)));
        assert(d[0] == c);
        assert(d.drop_first() =~= decode_utf16(u.skip(2)));
        assert(encode_char_utf16(c) =~= seq![hi, lo]);
        assert(encode_utf16(d) == encode_char_utf16(c) + u.skip(2));
        assert(encode_utf16(d) =~= u);
    } else {
        let unit = u[0];
        assert(is_unicode_scalar(unit as u32));
        let c = (unit as u32) as char;
        assert(c as u32 == unit as u32);
        lemma_utf16_reencode(u.drop_first());
        let d = decode_utf16(u);
        assert(d == seq![c] + decode_utf16(u.drop_first()));
        assert(d[0] == c);
        assert(d.drop_first() =~= decode_utf16(u.drop_first()));
        assert(encode_char_utf16(c) =~= seq![unit]);
        assert(encode_utf16(d) == encode_char_utf16(c) + u.drop_first());
        assert(encode_utf16(d) =~= u);
    }
}

/// Everything the encoder produces is well formed, so a host-to-foreign
/// round trip composes with [`lemma_utf16_reencode`].
pub proof fn lemma_encode_utf16_wf(s: Seq<char>)
    ensures
        wf_utf16(encode_utf16(s)),
    decreases s.len(),
{
    if s.len() > 0 {
        let c = s[0];
        let v = c as u32;
        vstd::utf8::char_is_scalar(c);
        lemma_encode_utf16_wf(s.drop_first());
        let e = encode_utf16(s);
        if v < 0x10000 {
            assert(e[0] == (v as u16));
            assert(!is_high_surrogate(e[0]) && !is_low_surrogate(e[0]));
            assert(e.drop_first() =~= encode_utf16(s.drop_first()));
        } else {
            let w = v - 0x10000;
            assert(w / 0x400 <= 0x3FF && w % 0x400 <= 0x3FF) by (nonlinear_arith)
                requires
                    0 <= w <= 0xFFFFF,
            ;
            assert(e.len() >= 2);
            assert(is_high_surrogate(e[0]) && is_low_surrogate(e[1]));
            assert(e.skip(2) =~= encode_utf16(s.drop_first()));
        }
    }
}

} // verus!
