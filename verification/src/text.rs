//! Characters and whitespace: decoding a frame into text and trimming it.
//!
//! Text is modelled as a `Seq<char>`. The executable functions walk a
//! `Vec<char>` by index, so that a trimmed piece is a pair of positions into
//! the text it was cut from.

use vstd::prelude::*;
use vstd::string::*;
use vstd::utf8::*;

verus! {

/// Whether `c` has the Unicode property White_Space.
pub open spec fn is_space(c: char) -> bool {
    let u = c as u32;
    ||| 0x09 <= u <= 0x0D
    ||| u == 0x20
    ||| u == 0x85
    ||| u == 0xA0
    ||| u == 0x1680
    ||| 0x2000 <= u <= 0x200A
    ||| u == 0x2028
    ||| u == 0x2029
    ||| u == 0x202F
    ||| u == 0x205F
    ||| u == 0x3000
}

/// How many whitespace characters `s` begins with.
pub open spec fn leading_spaces(s: Seq<char>) -> nat
    decreases s.len(),
{
    if s.len() > 0 && is_space(s[0]) {
        1 + leading_spaces(s.drop_first())
    } else {
        0
    }
}

/// How many whitespace characters `s` ends with.
pub open spec fn trailing_spaces(s: Seq<char>) -> nat
    decreases s.len(),
{
    if s.len() > 0 && is_space(s.last()) {
        1 + trailing_spaces(s.drop_last())
    } else {
        0
    }
}

/// `s` without its leading whitespace.
pub open spec fn trim_start(s: Seq<char>) -> Seq<char> {
    s.skip(leading_spaces(s) as int)
}

/// `s` without its trailing whitespace.
pub open spec fn trim_end(s: Seq<char>) -> Seq<char> {
    s.take(s.len() - trailing_spaces(s))
}

/// `s` without its leading and trailing whitespace.
pub open spec fn trim(s: Seq<char>) -> Seq<char> {
    trim_end(trim_start(s))
}

/// The first `n` characters of `s`, or all of `s` if it has fewer.
pub open spec fn truncate(s: Seq<char>, n: nat) -> Seq<char> {
    if s.len() > n {
        s.take(n as int)
    } else {
        s
    }
}

/// The leading whitespace of `s` is a run of whitespace that ends at the
/// first other character or at the end of `s`.
pub proof fn lemma_leading_spaces(s: Seq<char>)
    ensures
        leading_spaces(s) <= s.len(),
        forall|i: int| 0 <= i < leading_spaces(s) ==> is_space(#[trigger] s[i]),
        leading_spaces(s) < s.len() ==> !is_space(s[leading_spaces(s) as int]),
    decreases s.len(),
{
    if s.len() > 0 && is_space(s[0]) {
        let rest = s.drop_first();
        lemma_leading_spaces(rest);
        assert forall|i: int| 0 <= i < leading_spaces(s) implies is_space(#[trigger] s[i]) by {
            if i > 0 {
                assert(s[i] == rest[i - 1]);
            }
        }
    }
}

/// The trailing whitespace of `s` is a run of whitespace that begins after
/// the last other character or at the start of `s`.
pub proof fn lemma_trailing_spaces(s: Seq<char>)
    ensures
        trailing_spaces(s) <= s.len(),
        forall|i: int| s.len() - trailing_spaces(s) <= i < s.len() ==> is_space(#[trigger] s[i]),
        trailing_spaces(s) < s.len() ==> !is_space(s[s.len() - trailing_spaces(s) - 1]),
    decreases s.len(),
{
    if s.len() > 0 && is_space(s.last()) {
        let rest = s.drop_last();
        lemma_trailing_spaces(rest);
        assert forall|i: int| s.len() - trailing_spaces(s) <= i < s.len() implies is_space(
            #[trigger] s[i],
        ) by {
            if i < s.len() - 1 {
                assert(s[i] == rest[i]);
            }
        }
        if trailing_spaces(s) < s.len() {
            assert(s[s.len() - trailing_spaces(s) - 1] == rest[rest.len() - trailing_spaces(rest)
                - 1]);
        }
    }
}

/// Trimmed text neither begins nor ends with whitespace, and trimming it
/// again changes nothing.
pub proof fn lemma_trim_is_trimmed(s: Seq<char>)
    ensures
        trim(s).len() > 0 ==> !is_space(trim(s)[0]) && !is_space(trim(s).last()),
        trim(trim(s)) == trim(s),
{
    lemma_leading_spaces(s);
    lemma_trailing_spaces(trim_start(s));
}

/// Whether `c` is whitespace.
pub fn is_whitespace(c: char) -> (r: bool)
    ensures
        r == is_space(c),
{
    let u: u32 = c as u32;
    (0x09 <= u && u <= 0x0D) || u == 0x20 || u == 0x85 || u == 0xA0 || u == 0x1680 || (0x2000 <= u
        && u <= 0x200A) || u == 0x2028 || u == 0x2029 || u == 0x202F || u == 0x205F || u == 0x3000
}

/// The position in `chars[from..to]` of the first character that is not
/// whitespace, or `to` if there is none.
pub fn skip_spaces(chars: &Vec<char>, from: usize, to: usize) -> (i: usize)
    requires
        from <= to <= chars@.len(),
    ensures
        from <= i <= to,
        i - from == leading_spaces(chars@.subrange(from as int, to as int)),
        chars@.subrange(i as int, to as int) == trim_start(chars@.subrange(from as int, to as int)),
{
    let mut i: usize = from;
    while i < to && is_whitespace(chars[i])
        invariant
            from <= i <= to <= chars@.len(),
            leading_spaces(chars@.subrange(from as int, to as int)) == (i - from) + leading_spaces(
                chars@.subrange(i as int, to as int),
            ),
        decreases to - i,
    {
        proof {
            let here = chars@.subrange(i as int, to as int);
            assert(here.drop_first() =~= chars@.subrange(i + 1, to as int));
        }
        i += 1;
    }
    i
}

/// The position in `chars[from..to]` just behind the last character that is
/// not whitespace, or `from` if there is none.
pub fn skip_spaces_back(chars: &Vec<char>, from: usize, to: usize) -> (i: usize)
    requires
        from <= to <= chars@.len(),
    ensures
        from <= i <= to,
        to - i == trailing_spaces(chars@.subrange(from as int, to as int)),
        chars@.subrange(from as int, i as int) == trim_end(chars@.subrange(from as int, to as int)),
{
    let mut i: usize = to;
    while from < i && is_whitespace(chars[i - 1])
        invariant
            from <= i <= to <= chars@.len(),
            trailing_spaces(chars@.subrange(from as int, to as int)) == (to - i) + trailing_spaces(
                chars@.subrange(from as int, i as int),
            ),
        decreases i - from,
    {
        proof {
            let here = chars@.subrange(from as int, i as int);
            assert(here.drop_last() =~= chars@.subrange(from as int, i - 1));
        }
        i -= 1;
    }
    i
}

/// The characters of `text`, one element each.
pub fn chars_of(text: &str) -> (chars: Vec<char>)
    ensures
        chars@ == text@,
{
    let mut chars: Vec<char> = Vec::new();
    for c in it: text.chars()
        invariant
            it.seq() == text@,
            chars@ == it.seq().take(it.index() as int),
    {
        chars.push(c);
    }
    chars
}

/// Whether `text` and `other` hold the same characters.
pub fn same_text(text: &str, other: &str) -> (same: bool)
    ensures
        same == (text@ == other@),
{
    let a = text.to_owned();
    let b = other.to_owned();
    a == b
}

/// Whether `chars` begins with `prefix`.
pub fn starts_with(chars: &Vec<char>, prefix: &str) -> (r: bool)
    ensures
        r == prefix@.is_prefix_of(chars@),
{
    let wanted = chars_of(prefix);
    if wanted.len() > chars.len() {
        return false;
    }
    let mut i: usize = 0;
    while i < wanted.len()
        invariant
            i <= wanted@.len() <= chars@.len(),
            wanted@ == prefix@,
            wanted@.take(i as int) == chars@.take(i as int),
        decreases wanted@.len() - i,
    {
        if wanted[i] != chars[i] {
            return false;
        }
        i += 1;
    }
    true
}

/// Decodes `bytes` as UTF-8 by `std::str::from_utf8`: the text is `Some`
/// exactly when the bytes are well-formed UTF-8, and then holds the
/// characters that they encode. This contract is trusted, not proved.
#[verifier::external_body]
pub(crate) fn decode(bytes: &[u8]) -> (text: Option<&str>)
    ensures
        text is Some <==> valid_utf8(bytes@),
        text matches Some(s) ==> s@ == decode_utf8(bytes@),
{
    std::str::from_utf8(bytes).ok()
}

} // verus!
