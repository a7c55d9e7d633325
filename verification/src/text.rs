//! Operations on text that the rest of the library is stated over.

use vstd::prelude::*;
use vstd::std_specs::iter::IteratorSpec;
use vstd::string::*;
use vstd::utf8::{
    decode_utf8, decode_utf8_split, encode_utf8, encode_utf8_decode_utf8, encode_utf8_valid_utf8,
    is_char_boundary, is_char_boundary_iff_not_is_continuation_byte,
    is_char_boundary_start_end_of_seq, valid_utf8_split,
};

verus! {

/// The upper-case form of a text, as `str::to_uppercase` computes it.
pub uninterp spec fn uppercase_of(s: Seq<char>) -> Seq<char>;

/// The lower-case form of a text, as `str::to_lowercase` computes it.
pub uninterp spec fn lowercase_of(s: Seq<char>) -> Seq<char>;

/// A text without its leading and trailing whitespace, as `str::trim`
/// computes it.
pub uninterp spec fn trimmed_of(s: Seq<char>) -> Seq<char>;

/// `str::to_uppercase`: the result is the text's upper-case form, which is
/// given a name and not spelled out.
#[verifier::external_body]
pub(crate) fn to_uppercase(s: &str) -> (r: String)
    ensures
        r@ == uppercase_of(s@),
{
    s.to_uppercase()
}

/// `str::to_lowercase`: the result is the text's lower-case form, which is
/// given a name and not spelled out.
#[verifier::external_body]
pub(crate) fn to_lowercase(s: &str) -> (r: String)
    ensures
        r@ == lowercase_of(s@),
{
    s.to_lowercase()
}

/// `str::trim`: the result is the text without surrounding whitespace, which
/// is given a name and not spelled out.
#[verifier::external_body]
pub(crate) fn trim(s: &str) -> (r: &str)
    ensures
        r@ == trimmed_of(s@),
{
    s.trim()
}

/// The pieces of a text between the occurrences of a separator, as
/// `str::split` finds them.
pub uninterp spec fn pieces_between(s: Seq<char>, sep: Seq<char>) -> Seq<Seq<char>>;

/// `str::split` on a text pattern: the result is the pieces of the text
/// between the occurrences of the separator, which are given a name and not
/// spelled out.
#[verifier::external_body]
pub(crate) fn split(s: &str, sep: &str) -> (r: Vec<String>)
    ensures
        r.deep_view() == pieces_between(s@, sep@),
{
    s.split(sep).map(|p| p.to_string()).collect()
}

/// Whether a text begins with another.
pub(crate) fn starts_with(s: &str, prefix: &str) -> (r: bool)
    ensures
        r == prefix@.is_prefix_of(s@),
{
    broadcast use {axiom_spec_iter, next_postcondition};

    let mut chars = s.chars();
    let mut wanted = prefix.chars();
    let ghost mut passed: int = 0;
    assert(s@.skip(0) =~= s@);
    assert(prefix@.skip(0) =~= prefix@);
    loop
        invariant
            0 <= passed <= s@.len(),
            passed <= prefix@.len(),
            chars.remaining() == s@.skip(passed),
            wanted.remaining() == prefix@.skip(passed),
            forall|j: int| 0 <= j < passed ==> s@[j] == prefix@[j],
        decreases prefix@.len() - passed,
    {
        let ghost chars_before = chars;
        let ghost wanted_before = wanted;
        match wanted.next() {
            None => {
                assert(wanted_before.remaining().len() == 0);
                assert(passed == prefix@.len());
                assert(prefix@ =~= s@.subrange(0, passed));
                return true;
            },
            Some(w) => {
                assert(wanted_before.remaining().len() > 0);
                assert(w == prefix@[passed]);
                match chars.next() {
                    None => {
                        assert(chars_before.remaining().len() == 0);
                        assert(passed == s@.len());
                        return false;
                    },
                    Some(x) => {
                        assert(chars_before.remaining().len() > 0);
                        assert(x == s@[passed]);
                        if x != w {
                            proof {
                                if prefix@.len() <= s@.len() {
                                    assert(s@.subrange(0, prefix@.len() as int)[passed]
                                        != prefix@[passed]);
                                }
                            }
                            return false;
                        }
                        proof {
                            assert(s@.skip(passed).drop_first() =~= s@.skip(passed + 1));
                            assert(prefix@.skip(passed).drop_first() =~= prefix@.skip(passed + 1));
                            passed = passed + 1;
                        }
                    },
                }
            },
        }
    }
}

/// The bytes of two texts in a row are the bytes of the one and the bytes
/// of the other.
proof fn lemma_bytes_joined(a: Seq<char>, b: Seq<char>)
    ensures
        encode_utf8(a + b) == encode_utf8(a) + encode_utf8(b),
    decreases a.len(),
{
    if a.len() == 0 {
        assert(a + b =~= b);
        assert(encode_utf8(a) + encode_utf8(b) =~= encode_utf8(b));
    } else {
        assert((a + b).drop_first() =~= a.drop_first() + b);
        assert((a + b)[0] == a[0]);
        lemma_bytes_joined(a.drop_first(), b);
        assert(encode_utf8(a + b) =~= encode_utf8(a) + encode_utf8(b));
    }
}

/// Where a text ends with another, the bytes of the other are its last
/// bytes, and a character begins where they begin.
proof fn lemma_suffix_in_bytes(s: Seq<char>, suffix: Seq<char>)
    requires
        suffix.is_suffix_of(s),
    ensures
        encode_utf8(suffix).len() <= encode_utf8(s).len(),
        is_char_boundary(encode_utf8(s), encode_utf8(s).len() - encode_utf8(suffix).len()),
        encode_utf8(s).subrange(
            encode_utf8(s).len() - encode_utf8(suffix).len(),
            encode_utf8(s).len() as int,
        ) == encode_utf8(suffix),
{
    let before = s.subrange(0, s.len() - suffix.len());
    assert(s =~= before + suffix);
    lemma_bytes_joined(before, suffix);
    let b1 = encode_utf8(before);
    let b2 = encode_utf8(suffix);
    let all = encode_utf8(s);
    assert(all == b1 + b2);
    encode_utf8_valid_utf8(s);
    encode_utf8_valid_utf8(suffix);
    assert(all.subrange(b1.len() as int, all.len() as int) =~= b2);
    if b2.len() == 0 {
        is_char_boundary_start_end_of_seq(all);
    } else {
        is_char_boundary_iff_not_is_continuation_byte(b2, 0);
        assert(is_char_boundary(b2, 0));
        assert(all[b1.len() as int] == b2[0]);
        is_char_boundary_iff_not_is_continuation_byte(all, b1.len() as int);
    }
}

/// Whether a text ends with another.
pub(crate) fn ends_with(s: &str, suffix: &str) -> (r: bool)
    ensures
        r == suffix@.is_suffix_of(s@),
{
    let n = s.as_bytes().len();
    let k = suffix.as_bytes().len();
    proof {
        if suffix@.is_suffix_of(s@) {
            lemma_suffix_in_bytes(s@, suffix@);
        }
        encode_utf8_valid_utf8(s@);
        assert(n == encode_utf8(s@).len());
        assert(k == encode_utf8(suffix@).len());
    }
    if k > n {
        return false;
    }
    let mid = n - k;
    if !s.is_char_boundary(mid) {
        return false;
    }
    let (left, right) = s.split_at(mid);
    let r = str_eq(right, suffix);
    proof {
        let all = encode_utf8(s@);
        decode_utf8_split(all, mid as int);
        encode_utf8_decode_utf8(s@);
        encode_utf8_decode_utf8(right@);
        encode_utf8_decode_utf8(suffix@);
        encode_utf8_decode_utf8(left@);
        valid_utf8_split(all, mid as int);
        assert(right@ == decode_utf8(all.subrange(mid as int, all.len() as int)));
        assert(left@ == decode_utf8(all.subrange(0, mid as int)));
        assert(s@ =~= left@ + right@);
        if suffix@.is_suffix_of(s@) {
            assert(encode_utf8(right@) == encode_utf8(suffix@));
            assert(right@ == suffix@);
        }
        if r {
            assert(suffix@ =~= s@.subrange(s@.len() - suffix@.len(), s@.len() as int));
        }
    }
    r
}

/// Whether a character occurs in a text.
pub(crate) fn contains_char(s: &str, c: char) -> (r: bool)
    ensures
        r == s@.contains(c),
{
    broadcast use {axiom_spec_iter, next_postcondition};

    let mut chars = s.chars();
    let ghost mut passed: int = 0;
    assert(s@.skip(0) =~= s@);
    loop
        invariant
            0 <= passed <= s@.len(),
            chars.remaining() == s@.skip(passed),
            forall|j: int| 0 <= j < passed ==> s@[j] != c,
        decreases s@.len() - passed,
    {
        let ghost before = chars;
        match chars.next() {
            Some(x) => {
                assert(before.remaining().len() > 0);
                assert(x == s@[passed]);
                if x == c {
                    return true;
                }
                proof {
                    assert(s@.skip(passed).drop_first() =~= s@.skip(passed + 1));
                    passed = passed + 1;
                }
            },
            None => {
                assert(before.remaining().len() == 0);
                assert(passed == s@.len());
                return false;
            },
        }
    }
}

/// The characters of a text, in order.
pub(crate) fn chars_of(s: &str) -> (r: Vec<char>)
    ensures
        r@ == s@,
{
    broadcast use {axiom_spec_iter, next_postcondition};

    let mut chars = s.chars();
    let mut out: Vec<char> = Vec::new();
    assert(s@.skip(0) =~= s@);
    loop
        invariant
            out@.len() <= s@.len(),
            chars.remaining() == s@.skip(out@.len() as int),
            out@ == s@.take(out@.len() as int),
        decreases s@.len() - out@.len(),
    {
        let ghost before = chars;
        let ghost passed = out@.len() as int;
        match chars.next() {
            Some(x) => {
                assert(before.remaining().len() > 0);
                assert(x == s@[passed]);
                out.push(x);
                assert(s@.skip(passed).drop_first() =~= s@.skip(passed + 1));
                assert(out@ =~= s@.take(passed + 1));
            },
            None => {
                assert(before.remaining().len() == 0);
                assert(s@.take(passed) =~= s@);
                return out;
            },
        }
    }
}

/// `String::from_iter` on characters: the text that the characters make.
#[verifier::external_body]
pub(crate) fn string_of(chars: &Vec<char>) -> (r: String)
    ensures
        r@ == chars@,
{
    chars.iter().collect()
}

/// `String::push`: the character is appended.
#[verifier::external_body]
pub(crate) fn push_char(s: &mut String, c: char)
    ensures
        final(s)@ == old(s)@.push(c),
{
    s.push(c)
}

/// Whether two texts hold the same characters.
pub fn str_eq(a: &str, b: &str) -> (r: bool)
    ensures
        r == (a@ == b@),
{
    let x = String::from_str(a);
    let y = String::from_str(b);
    x == y
}

/// An owned copy of a text.
pub fn owned(s: &str) -> (r: String)
    ensures
        r@ == s@,
{
    String::from_str(s)
}

/// A text without `suffix` at its end, where it ends with it; the text
/// itself where it does not.
pub open spec fn without_suffix(t: Seq<char>, suffix: Seq<char>) -> Seq<char> {
    if suffix.is_suffix_of(t) {
        t.take(t.len() - suffix.len())
    } else {
        t
    }
}

/// Removes `suffix` from the end of a text that ends with it.
pub fn strip_suffix(text: String, suffix: &str) -> (r: String)
    ensures
        r@ == without_suffix(text@, suffix@),
{
    if ends_with(text.as_str(), suffix) {
        let n = text.as_str().unicode_len();
        let k = suffix.unicode_len();
        let kept = text.as_str().substring_char(0, n - k);
        assert(kept@ =~= text@.take(n - k));
        String::from_str(kept)
    } else {
        text
    }
}

/// Every text of a list in capitals.
pub open spec fn all_uppercase(names: Seq<Seq<char>>) -> Seq<Seq<char>> {
    Seq::new(names.len(), |i: int| uppercase_of(names[i]))
}

/// Puts every text of a list in capitals.
pub fn uppercase_all(names: &Vec<String>) -> (r: Vec<String>)
    ensures
        r.deep_view() == all_uppercase(names.deep_view()),
{
    let ghost upper = all_uppercase(names.deep_view());
    let n = names.len();
    let mut out: Vec<String> = Vec::new();
    let mut i: usize = 0;
    while i < n
        invariant
            i <= n,
            n == names.len(),
            upper == all_uppercase(names.deep_view()),
            out.deep_view() == upper.take(i as int),
        decreases n - i,
    {
        out.push(to_uppercase(names[i].as_str()));
        proof {
            broadcast use crate::seqs::group_views;

            assert(upper.take(i + 1) =~= upper.take(i as int).push(
                uppercase_of(names[i as int]@),
            ));
        }
        i += 1;
    }
    assert(upper.take(n as int) =~= upper);
    out
}

/// A text without its last `n` characters; the empty text where it has no
/// more than `n`.
pub open spec fn without_last(t: Seq<char>, n: int) -> Seq<char> {
    if t.len() <= n {
        Seq::empty()
    } else {
        t.take(t.len() - n)
    }
}

/// Removes the last `n` characters of a text.
pub fn drop_last_chars(text: String, n: usize) -> (r: String)
    ensures
        r@ == without_last(text@, n as int),
{
    let len = text.as_str().unicode_len();
    if len <= n {
        String::new()
    } else {
        let kept = text.as_str().substring_char(0, len - n);
        assert(kept@ =~= text@.take(len - n));
        String::from_str(kept)
    }
}

/// The texts of `names`, joined by `sep`.
pub open spec fn joined(names: Seq<Seq<char>>, sep: Seq<char>) -> Seq<char>
    decreases names.len(),
{
    if names.len() == 0 {
        Seq::empty()
    } else if names.len() == 1 {
        names[0]
    } else {
        joined(names.drop_last(), sep) + sep + names.last()
    }
}

/// Joins the first `count` of `names` with `sep` between them.
pub fn join_first(names: &Vec<String>, count: usize, sep: &str) -> (r: String)
    requires
        count <= names.len(),
    ensures
        r@ == joined(names.deep_view().take(count as int), sep@),
{
    let mut out = String::new();
    let mut i: usize = 0;
    while i < count
        invariant
            i <= count <= names.len(),
            out@ == joined(names.deep_view().take(i as int), sep@),
        decreases count - i,
    {
        proof {
            let a = names.deep_view().take(i as int);
            let b = names.deep_view().take(i + 1);
            assert(b.drop_last() =~= a);
            assert(b.last() == names[i as int]@);
            if i == 0 {
                assert(a.len() == 0);
                assert(out@ =~= Seq::<char>::empty());
            }
        }
        if i > 0 {
            out.append(sep);
        }
        out.append(names[i].as_str());
        proof {
            if i == 0 {
                assert(out@ =~= names[0]@);
            }
        }
        i += 1;
    }
    out
}

} // verus!
