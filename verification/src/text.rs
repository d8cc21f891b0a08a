//! Small verified helpers for working with strings as character sequences.

use vstd::prelude::*;
use vstd::std_specs::iter::IteratorSpec;

verus! {

/// Character-by-character string equality, decided on the views.
pub fn str_eq(a: &str, b: &str) -> (r: bool)
    ensures
        r == (a@ == b@),
{
    let an = a.unicode_len();
    let bn = b.unicode_len();
    if an != bn {
        return false;
    }
    let mut i: usize = 0;
    while i < an
        invariant
            an == a@.len(),
            bn == b@.len(),
            an == bn,
            i <= an,
            forall|j: int| 0 <= j < i ==> a@[j] == b@[j],
        decreases an - i,
    {
        let ca = a.get_char(i);
        let cb = b.get_char(i);
        if ca != cb {
            return false;
        }
        i += 1;
    }
    proof {
        assert(a@ =~= b@);
    }
    true
}

/// Copies the characters of `v` between `start` and `end` into a string.
///
/// Relies on `String::from_iter` over characters: the string holds exactly
/// the given characters in order.
#[verifier::external_body]
pub fn chars_to_string(v: &Vec<char>, start: usize, end: usize) -> (r: String)
    requires
        start <= end <= v@.len(),
    ensures
        r@ == v@.subrange(start as int, end as int),
{
    v[start..end].iter().collect()
}

/// Collects the characters of a string slice into a vector.
pub fn str_chars(s: &str) -> (r: Vec<char>)
    ensures
        r@ == s@,
{
    broadcast use vstd::string::next_postcondition;
    broadcast use vstd::string::axiom_spec_iter;

    let mut it = s.chars();
    let mut out: Vec<char> = Vec::new();
    loop
        invariant
            it.obeys_prophetic_iter_laws(),
            it.decrease() is Some,
            out@ + it.remaining() == s@,
        decreases it.decrease()->0,
    {
        let ghost pre_out = out@;
        let ghost pre_remaining = it.remaining();
        match it.next() {
            Some(c) => {
                out.push(c);
                proof {
                    assert(out@ + it.remaining() =~= pre_out + pre_remaining);
                }
            },
            None => {
                proof {
                    assert(out@ =~= s@);
                }
                return out;
            },
        }
    }
}

/// The UTF-8 byte length of one character.
pub open spec fn char_len(c: char) -> int {
    vstd::utf8::encode_scalar(c as u32).len() as int
}

/// The UTF-8 byte offset of character position `i` of a text: the byte
/// length of the prefix before it.
pub open spec fn byte_off(cs: Seq<char>, i: int) -> int
    decreases i,
{
    if i <= 0 {
        0
    } else {
        byte_off(cs, i - 1) + char_len(cs[i - 1])
    }
}

/// Byte offsets do not decrease along the text.
pub proof fn lemma_byte_off_mono(cs: Seq<char>, i: int, j: int)
    requires
        0 <= i <= j,
    ensures
        byte_off(cs, i) <= byte_off(cs, j),
    decreases j - i,
{
    if i < j {
        lemma_byte_off_mono(cs, i, j - 1);
        assert(char_len(cs[j - 1]) >= 1);
    }
}

/// Appending one character appends its encoding.
proof fn lemma_encode_utf8_push(x: Seq<char>, c: char)
    ensures
        vstd::utf8::encode_utf8(x.push(c)) == vstd::utf8::encode_utf8(x)
            + vstd::utf8::encode_scalar(c as u32),
    decreases x.len(),
{
    if x.len() == 0 {
        assert(x.push(c)[0] == c);
        assert(x.push(c).drop_first() =~= Seq::<char>::empty());
        assert(x =~= Seq::<char>::empty());
        assert(vstd::utf8::encode_utf8(Seq::<char>::empty()) =~= Seq::<u8>::empty());
        assert(vstd::utf8::encode_utf8(x.push(c)) == vstd::utf8::encode_scalar(c as u32)
            + vstd::utf8::encode_utf8(x.push(c).drop_first()));
        assert(vstd::utf8::encode_utf8(x.push(c)) =~= vstd::utf8::encode_utf8(x)
            + vstd::utf8::encode_scalar(c as u32));
    } else {
        lemma_encode_utf8_push(x.drop_first(), c);
        assert(x.push(c)[0] == x[0]);
        assert(x.push(c).drop_first() =~= x.drop_first().push(c));
        assert(vstd::utf8::encode_utf8(x.push(c)) =~= vstd::utf8::encode_utf8(x)
            + vstd::utf8::encode_scalar(c as u32));
    }
}

/// A byte offset is the byte length of the encoded prefix.
proof fn lemma_byte_off_is_prefix_len(cs: Seq<char>, i: int)
    requires
        0 <= i <= cs.len(),
    ensures
        byte_off(cs, i) == vstd::utf8::encode_utf8(cs.take(i)).len(),
    decreases i,
{
    if i == 0 {
        assert(cs.take(0) =~= Seq::<char>::empty());
    } else {
        lemma_byte_off_is_prefix_len(cs, i - 1);
        assert(cs.take(i) =~= cs.take(i - 1).push(cs[i - 1]));
        lemma_encode_utf8_push(cs.take(i - 1), cs[i - 1]);
    }
}

/// The byte offset of the end of a text is its UTF-8 byte length.
pub proof fn lemma_byte_off_total(cs: Seq<char>)
    ensures
        byte_off(cs, cs.len() as int) == vstd::utf8::encode_utf8(cs).len(),
{
    lemma_byte_off_is_prefix_len(cs, cs.len() as int);
    assert(cs.take(cs.len() as int) =~= cs);
}

/// The UTF-8 byte length of one character.
pub fn utf8_len(c: char) -> (r: usize)
    ensures
        r as int == char_len(c),
{
    proof {
        vstd::utf8::char_is_scalar(c);
    }
    let u = c as u32;
    if u < 0x80 {
        1
    } else if u < 0x800 {
        2
    } else if u < 0x10000 {
        3
    } else {
        4
    }
}

} // verus!
