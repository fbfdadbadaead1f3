//! UTF-16 encoding of strings, as the native window layer wants them:
//! wide characters with a terminating zero.

use vstd::prelude::*;
use vstd::utf8::char_is_scalar;

verus! {

/// The UTF-16 encoding of one character: a scalar below `0x10000` is one code
/// unit; anything above is a surrogate pair over the scalar minus `0x10000`.
pub open spec fn spec_utf16_char(c: char) -> Seq<u16> {
    let v = c as u32;
    if v < 0x10000 {
        seq![v as u16]
    } else {
        let u = v - 0x10000;
        seq![(0xD800 + u / 0x400) as u16, (0xDC00 + u % 0x400) as u16]
    }
}

/// The UTF-16 encoding of a character sequence: each character's code units,
/// in order.
pub open spec fn spec_utf16(cs: Seq<char>) -> Seq<u16>
    decreases cs.len(),
{
    if cs.len() == 0 {
        Seq::empty()
    } else {
        spec_utf16_char(cs[0]) + spec_utf16(cs.drop_first())
    }
}

/// Encoding distributes over appending one character at the end.
proof fn lemma_utf16_push(cs: Seq<char>, c: char)
    ensures
        spec_utf16(cs.push(c)) == spec_utf16(cs) + spec_utf16_char(c),
    decreases cs.len(),
{
    if cs.len() == 0 {
        assert(cs.push(c)[0] == c);
        assert(cs.push(c).drop_first() =~= Seq::<char>::empty());
        assert(spec_utf16(cs.push(c)) == spec_utf16_char(c) + spec_utf16(Seq::<char>::empty()));
        assert(spec_utf16_char(c) + Seq::<u16>::empty() =~= Seq::<u16>::empty()
            + spec_utf16_char(c));
    } else {
        assert(cs.push(c)[0] == cs[0]);
        assert(cs.push(c).drop_first() =~= cs.drop_first().push(c));
        lemma_utf16_push(cs.drop_first(), c);
        assert(spec_utf16(cs.push(c)) == spec_utf16_char(cs[0]) + (spec_utf16(cs.drop_first())
            + spec_utf16_char(c)));
        assert(spec_utf16_char(cs[0]) + (spec_utf16(cs.drop_first()) + spec_utf16_char(c))
            =~= (spec_utf16_char(cs[0]) + spec_utf16(cs.drop_first())) + spec_utf16_char(c));
    }
}

/// Appends the UTF-16 code units of one character.
fn push_utf16_char(out: &mut Vec<u16>, c: char)
    ensures
        final(out)@ == old(out)@ + spec_utf16_char(c),
{
    proof {
        char_is_scalar(c);
    }
    let v = c as u32;
    if v < 0x10000 {
        out.push(v as u16);
        proof {
            assert(final(out)@ =~= old(out)@ + spec_utf16_char(c));
        }
    } else {
        let u = v - 0x10000;
        out.push((0xD800 + u / 0x400) as u16);
        out.push((0xDC00 + u % 0x400) as u16);
        proof {
            assert(final(out)@ =~= old(out)@ + spec_utf16_char(c));
        }
    }
}

/// Encodes a string as UTF-16 code units with a terminating zero, the form
/// the native window layer takes wide strings in.
pub fn w_str(s: &str) -> (r: Vec<u16>)
    ensures
        r@ == spec_utf16(s@).push(0u16),
{
    let n = s.unicode_len();
    let mut out: Vec<u16> = Vec::new();
    let mut i: usize = 0;
    while i < n
        invariant
            i <= n,
            n == s@.len(),
            out@ == spec_utf16(s@.subrange(0, i as int)),
        decreases n - i,
    {
        let c = s.get_char(i);
        push_utf16_char(&mut out, c);
        proof {
            assert(s@.subrange(0, i as int).push(s@[i as int])
                =~= s@.subrange(0, i as int + 1));
            lemma_utf16_push(s@.subrange(0, i as int), s@[i as int]);
        }
        i = i + 1;
    }
    proof {
        assert(s@.subrange(0, n as int) =~= s@);
    }
    out.push(0u16);
    out
}

/// The wide-string conversion as a method on string slices.
pub trait StrExt {
    /// The characters the string holds.
    spec fn chars_view(&self) -> Seq<char>;

    /// The UTF-16 code units of this string, with a terminating zero.
    fn to_w(&self) -> (r: Vec<u16>)
        ensures
            r@ == spec_utf16(self.chars_view()).push(0u16),
    ;
}

impl StrExt for str {
    open spec fn chars_view(&self) -> Seq<char> {
        self@
    }

    fn to_w(&self) -> (r: Vec<u16>) {
        w_str(self)
    }
}

} // verus!
