//! Small operations on text that the rest of the library is built from.

use vstd::prelude::*;
use vstd::string::*;

verus! {

/// `s` without the run of `c` at its end.
pub open spec fn strip_trailing(s: Seq<char>, c: char) -> Seq<char>
    decreases s.len(),
{
    if s.len() > 0 && s.last() == c {
        strip_trailing(s.drop_last(), c)
    } else {
        s
    }
}

/// The characters of `s`, one by one.
pub fn chars_of(s: &str) -> (chars: Vec<char>)
    ensures
        chars@ == s@,
{
    broadcast use vstd::string::group_string_axioms;

    let mut chars: Vec<char> = Vec::new();
    for c in it: s.chars()
        invariant
            chars@ == it.seq().take(it.index()),
            it.seq() == s@,
    {
        chars.push(c);
    }
    chars
}

/// The base address of the administration API as it is used in every
/// request: the address given, without trailing slashes.
pub fn normalize_base_url(value: &str) -> (base: String)
    ensures
        base@ == strip_trailing(value@, '/'),
{
    let chars = chars_of(value);
    let mut end: usize = chars.len();
    assert(value@.subrange(0, end as int) == value@);
    while end > 0 && chars[end - 1] == '/'
        invariant
            end <= value@.len(),
            chars@ == value@,
            strip_trailing(value@, '/') == strip_trailing(value@.subrange(0, end as int), '/'),
        decreases end,
    {
        proof {
            let kept = value@.subrange(0, end as int);
            assert(kept.drop_last() == value@.subrange(0, end - 1));
        }
        end = end - 1;
    }
    value.substring_char(0, end).to_owned()
}

/// Whether `c` is white space: whether it has the Unicode property
/// White_Space, as `char::is_whitespace` tells and `str::trim` goes by.
pub uninterp spec fn white_space(c: char) -> bool;

/// `s` without the white space at its end.
pub open spec fn trim_end(s: Seq<char>) -> Seq<char>
    decreases s.len(),
{
    if s.len() > 0 && white_space(s.last()) {
        trim_end(s.drop_last())
    } else {
        s
    }
}

/// `s` without the white space at its start.
pub open spec fn trim_start(s: Seq<char>) -> Seq<char>
    decreases s.len(),
{
    if s.len() > 0 && white_space(s.first()) {
        trim_start(s.drop_first())
    } else {
        s
    }
}

/// `s` without the white space at its start and at its end.
pub open spec fn trimmed(s: Seq<char>) -> Seq<char> {
    trim_start(trim_end(s))
}

/// What `trim_end` leaves is the text up to some place, white space fills
/// the rest, and what is left does not end in white space.
pub proof fn lemma_trim_end_shape(s: Seq<char>)
    ensures
        trim_end(s).len() <= s.len(),
        trim_end(s) == s.subrange(0, trim_end(s).len() as int),
        forall|k: int| trim_end(s).len() <= k < s.len() ==> white_space(#[trigger] s[k]),
        trim_end(s).len() > 0 ==> !white_space(trim_end(s).last()),
    decreases s.len(),
{
    if s.len() > 0 && white_space(s.last()) {
        let shorter = s.drop_last();
        lemma_trim_end_shape(shorter);
        assert(shorter.subrange(0, trim_end(s).len() as int) == s.subrange(
            0,
            trim_end(s).len() as int,
        ));
        assert forall|k: int| trim_end(s).len() <= k < s.len() implies white_space(
            #[trigger] s[k],
        ) by {
            if k < shorter.len() {
                assert(s[k] == shorter[k]);
            }
        }
    } else {
        assert(s.subrange(0, s.len() as int) == s);
    }
}

/// What `trim_start` leaves is the text from some place on, white space
/// fills what stands before, and what is left does not start with white
/// space.
pub proof fn lemma_trim_start_shape(s: Seq<char>)
    ensures
        trim_start(s).len() <= s.len(),
        trim_start(s) == s.subrange(s.len() - trim_start(s).len(), s.len() as int),
        forall|k: int| 0 <= k < s.len() - trim_start(s).len() ==> white_space(#[trigger] s[k]),
        trim_start(s).len() > 0 ==> !white_space(trim_start(s).first()),
    decreases s.len(),
{
    if s.len() > 0 && white_space(s.first()) {
        let shorter = s.drop_first();
        lemma_trim_start_shape(shorter);
        let cut = s.len() - trim_start(s).len();
        assert(shorter.subrange(cut - 1, shorter.len() as int) == s.subrange(cut, s.len() as int));
        assert forall|k: int| 0 <= k < cut implies white_space(#[trigger] s[k]) by {
            if k > 0 {
                assert(s[k] == shorter[k - 1]);
            }
        }
    } else {
        assert(s.subrange(0, s.len() as int) == s);
    }
}

/// A text is blank exactly if each of its characters is white space.
pub proof fn lemma_blank_is_all_white_space(s: Seq<char>)
    ensures
        is_blank(s) <==> forall|k: int| 0 <= k < s.len() ==> white_space(#[trigger] s[k]),
{
    let kept = trim_end(s);
    lemma_trim_end_shape(s);
    lemma_trim_start_shape(kept);
    if is_blank(s) {
        assert forall|k: int| 0 <= k < s.len() implies white_space(#[trigger] s[k]) by {
            if k < kept.len() {
                assert(kept[k] == s[k]);
            }
        }
    }
    if forall|k: int| 0 <= k < s.len() ==> white_space(#[trigger] s[k]) {
        if kept.len() > 0 {
            assert(kept.last() == s[kept.len() - 1]);
        }
    }
}

/// Calls `char::is_whitespace`, which tells whether a character has the
/// Unicode property White_Space.
#[verifier::external_body]
fn is_whitespace(c: char) -> (yes: bool)
    ensures
        yes == white_space(c),
{
    c.is_whitespace()
}

/// `s` without the white space at its start and at its end.
pub fn trim<'a>(s: &'a str) -> (inner: &'a str)
    ensures
        inner@ == trimmed(s@),
{
    let chars = chars_of(s);
    let mut end: usize = chars.len();
    assert(s@.subrange(0, end as int) == s@);
    while end > 0 && is_whitespace(chars[end - 1])
        invariant
            end <= s@.len(),
            chars@ == s@,
            trim_end(s@) == trim_end(s@.subrange(0, end as int)),
        decreases end,
    {
        assert(s@.subrange(0, end as int).drop_last() == s@.subrange(0, end - 1));
        end = end - 1;
    }
    let ghost kept = s@.subrange(0, end as int);
    assert(trim_end(s@) == kept);
    let mut start: usize = 0;
    assert(kept.subrange(0, end as int) == kept);
    while start < end && is_whitespace(chars[start])
        invariant
            start <= end <= s@.len(),
            chars@ == s@,
            kept == s@.subrange(0, end as int),
            trim_start(kept) == trim_start(s@.subrange(start as int, end as int)),
        decreases end - start,
    {
        assert(s@.subrange(start as int, end as int).drop_first() == s@.subrange(
            start + 1,
            end as int,
        ));
        start = start + 1;
    }
    s.substring_char(start, end)
}

/// Whether nothing but white space stands in `s`.
pub open spec fn is_blank(s: Seq<char>) -> bool {
    trimmed(s).len() == 0
}

/// Whether nothing but white space stands in `s`.
pub fn blank(s: &str) -> (yes: bool)
    ensures
        yes == is_blank(s@),
{
    trim(s).is_empty()
}

/// `c` in lower case where it is an ASCII capital, else `c`.
pub open spec fn ascii_lowercase(c: char) -> char {
    if 'A' <= c <= 'Z' {
        ((c as u8) + 32) as u8 as char
    } else {
        c
    }
}

/// `s` with its ASCII capitals in lower case.
pub open spec fn ascii_lowered(s: Seq<char>) -> Seq<char> {
    s.map_values(|c: char| ascii_lowercase(c))
}

/// Whether two texts are the same but for the case of their ASCII letters.
pub open spec fn same_ignoring_ascii_case(a: Seq<char>, b: Seq<char>) -> bool {
    ascii_lowered(a) == ascii_lowered(b)
}

/// Calls `str::eq_ignore_ascii_case`, which compares the two texts with
/// their ASCII letters taken to lower case and all else as it stands.
#[verifier::external_body]
pub(crate) fn eq_ignore_ascii_case(a: &str, b: &str) -> (same: bool)
    ensures
        same == same_ignoring_ascii_case(a@, b@),
{
    a.eq_ignore_ascii_case(b)
}

/// Whether two texts hold the same characters.
pub fn same_text(a: &str, b: &str) -> (same: bool)
    ensures
        same == (a@ == b@),
{
    let x = a.as_bytes();
    let y = b.as_bytes();
    if x.len() != y.len() {
        return false;
    }
    let mut i: usize = 0;
    while i < x.len()
        invariant
            i <= x.len(),
            x.len() == y.len(),
            x@ == a.spec_bytes(),
            y@ == b.spec_bytes(),
            forall|j: int| 0 <= j < i ==> x@[j] == y@[j],
        decreases x.len() - i,
    {
        if x[i] != y[i] {
            return false;
        }
        i = i + 1;
    }
    proof {
        assert(x@ =~= y@);
        vstd::utf8::encode_utf8_decode_utf8(a@);
        vstd::utf8::encode_utf8_decode_utf8(b@);
    }
    true
}

/// `a` and then `b`.
pub fn concat2(a: &str, b: &str) -> (joined: String)
    ensures
        joined@ == a@ + b@,
{
    let mut joined = a.to_owned();
    joined.append(b);
    joined
}

/// `a`, `b` and `c` one after another.
pub fn concat3(a: &str, b: &str, c: &str) -> (joined: String)
    ensures
        joined@ == a@ + b@ + c@,
{
    let mut joined = a.to_owned();
    joined.append(b);
    joined.append(c);
    joined
}

} // verus!
