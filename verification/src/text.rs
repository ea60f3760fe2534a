//! Work on strings: comparing, trimming, quoting.

use vstd::prelude::*;
use vstd::std_specs::iter::IteratorSpec;

verus! {

/// The text that `Debug` formatting gives for a string with the characters
/// `s`: the string between double quotes, with the characters that cannot
/// stand there as they are written as escapes.
pub uninterp spec fn debug_text(s: Seq<char>) -> Seq<char>;

/// Formats a string with `<str as Debug>::fmt`, through `format!`. That the
/// result depends on the characters of `s` alone is taken on trust; nothing
/// else is claimed of it.
#[verifier::external_body]
pub(crate) fn debug_string(s: &str) -> (r: String)
    ensures
        r@ == debug_text(s@),
{
    format!("{:?}", s)
}

/// Whether `part` occurs in `text` as a run of consecutive characters.
pub open spec fn occurs_in(part: Seq<char>, text: Seq<char>) -> bool {
    exists|i: int|
        0 <= i && i + part.len() <= text.len() && #[trigger] text.subrange(i, i + part.len())
            == part
}

/// A text that is put together from three parts holds the middle one.
pub proof fn lemma_occurs_between(before: Seq<char>, part: Seq<char>, after: Seq<char>)
    ensures
        occurs_in(part, before + part + after),
{
    let text = before + part + after;
    let i: int = before.len() as int;
    assert(text.subrange(i, i + part.len()) == part);
}

/// A text that is put together from two parts holds the second one.
pub proof fn lemma_occurs_at_end(before: Seq<char>, part: Seq<char>)
    ensures
        occurs_in(part, before + part),
{
    let text = before + part;
    let i: int = before.len() as int;
    assert(text.subrange(i, i + part.len()) == part);
}

/// Putting texts together does not depend on the grouping.
pub proof fn lemma_concat_associative(a: Seq<char>, b: Seq<char>, c: Seq<char>)
    ensures
        (a + b) + c == a + (b + c),
{
}

/// Whether two strings hold the same characters.
pub fn str_eq(a: &str, b: &str) -> (r: bool)
    ensures
        r == (a@ == b@),
{
    broadcast use vstd::string::group_string_axioms;

    let mut left = a.chars();
    let mut right = b.chars();
    let ghost mut n: int = 0;
    loop
        invariant
            0 <= n <= a@.len(),
            n <= b@.len(),
            left.remaining() == a@.skip(n),
            right.remaining() == b@.skip(n),
            a@.take(n) == b@.take(n),
        decreases a@.len() - n,
    {
        match (left.next(), right.next()) {
            (Some(x), Some(y)) => {
                if x != y {
                    return false;
                }
                proof {
                    n = n + 1;
                }
            },
            (None, None) => {
                assert(a@.take(n) == a@);
                assert(b@.take(n) == b@);
                return true;
            },
            _ => {
                return false;
            },
        }
    }
}

/// Whether `c` is white space: one of the twenty-five characters that
/// Unicode gives the property White_Space.
pub open spec fn is_white_space(c: char) -> bool {
    let u = c as u32;
    ||| 0x09 <= u <= 0x0D
    ||| u == 0x20
    ||| u == 0x85
    ||| u == 0xA0
    ||| u == 0x1680
    ||| 0x2000 <= u <= 0x200A
    ||| u == 0x2028
    ||| u == 0x2029
    ||| u == 0x202F
    ||| u == 0x205F
    ||| u == 0x3000
}

/// Tests a character for white space.
pub fn char_is_white_space(c: char) -> (r: bool)
    ensures
        r == is_white_space(c),
{
    let u: u32 = c as u32;
    (0x09 <= u && u <= 0x0D) || u == 0x20 || u == 0x85 || u == 0xA0 || u == 0x1680 || (0x2000 <= u
        && u <= 0x200A) || u == 0x2028 || u == 0x2029 || u == 0x202F || u == 0x205F || u == 0x3000
}

/// `s` without its leading white space.
pub open spec fn skip_leading_space(s: Seq<char>) -> Seq<char>
    decreases s.len(),
{
    if s.len() > 0 && is_white_space(s.first()) {
        skip_leading_space(s.drop_first())
    } else {
        s
    }
}

/// `s` without its trailing white space.
pub open spec fn skip_trailing_space(s: Seq<char>) -> Seq<char>
    decreases s.len(),
{
    if s.len() > 0 && is_white_space(s.last()) {
        skip_trailing_space(s.drop_last())
    } else {
        s
    }
}

/// `s` without its leading and trailing white space.
pub open spec fn trimmed(s: Seq<char>) -> Seq<char> {
    skip_trailing_space(skip_leading_space(s))
}

proof fn lemma_skip_leading_space(s: Seq<char>, a: int)
    requires
        0 <= a <= s.len(),
        forall|k: int| 0 <= k < a ==> is_white_space(#[trigger] s[k]),
        a < s.len() ==> !is_white_space(s[a]),
    ensures
        skip_leading_space(s) == s.skip(a),
    decreases a,
{
    if a > 0 {
        lemma_skip_leading_space(s.drop_first(), a - 1);
    }
}

proof fn lemma_skip_trailing_space(s: Seq<char>, b: int)
    requires
        0 <= b <= s.len(),
        forall|k: int| b <= k < s.len() ==> is_white_space(#[trigger] s[k]),
        0 < b ==> !is_white_space(s[b - 1]),
    ensures
        skip_trailing_space(s) == s.take(b),
    decreases s.len() - b,
{
    if b < s.len() {
        lemma_skip_trailing_space(s.drop_last(), b);
    }
}

/// A trimmed string has no white space at either end.
pub proof fn lemma_trimmed_ends(s: Seq<char>)
    ensures
        trimmed(s).len() > 0 ==> !is_white_space(trimmed(s).first()) && !is_white_space(
            trimmed(s).last(),
        ),
{
    lemma_skip_leading_space_start(s);
    lemma_skip_trailing_space_end(skip_leading_space(s));
}

proof fn lemma_skip_leading_space_start(s: Seq<char>)
    ensures
        skip_leading_space(s).len() > 0 ==> !is_white_space(skip_leading_space(s).first()),
    decreases s.len(),
{
    if s.len() > 0 && is_white_space(s.first()) {
        lemma_skip_leading_space_start(s.drop_first());
    }
}

proof fn lemma_skip_trailing_space_end(s: Seq<char>)
    ensures
        skip_trailing_space(s).len() > 0 ==> !is_white_space(skip_trailing_space(s).last()),
        skip_trailing_space(s).len() > 0 ==> skip_trailing_space(s).first() == s.first(),
    decreases s.len(),
{
    if s.len() > 0 && is_white_space(s.last()) {
        lemma_skip_trailing_space_end(s.drop_last());
    }
}

/// A string of white space alone has the empty string as its trimmed form.
pub proof fn lemma_trimmed_blank(s: Seq<char>)
    requires
        forall|k: int| 0 <= k < s.len() ==> is_white_space(#[trigger] s[k]),
    ensures
        trimmed(s) == Seq::<char>::empty(),
{
    lemma_skip_leading_space(s, s.len() as int);
    lemma_skip_trailing_space(s.skip(s.len() as int), 0);
}

/// A string with no white space at either end is its own trimmed form.
pub proof fn lemma_trimmed_unchanged(s: Seq<char>)
    requires
        s.len() > 0 ==> !is_white_space(s.first()) && !is_white_space(s.last()),
    ensures
        trimmed(s) == s,
{
    lemma_skip_leading_space(s, 0);
    lemma_skip_trailing_space(s, s.len() as int);
}

/// Removes the white space at both ends of `s`.
pub fn trim(s: &str) -> (r: &str)
    ensures
        r@ == trimmed(s@),
{
    broadcast use vstd::string::group_string_axioms;

    let total: usize = s.unicode_len();
    let mut rest = s.chars();
    let mut i: usize = 0;
    let mut found = false;
    let mut start: usize = 0;
    let mut end: usize = 0;
    loop
        invariant
            total == s@.len(),
            i <= total,
            rest.remaining() == s@.skip(i as int),
            !found ==> forall|k: int| 0 <= k < i ==> is_white_space(#[trigger] s@[k]),
            found ==> {
                &&& start < end <= i
                &&& forall|k: int| 0 <= k < start ==> is_white_space(#[trigger] s@[k])
                &&& !is_white_space(s@[start as int])
                &&& !is_white_space(s@[end - 1])
                &&& forall|k: int| end <= k < i ==> is_white_space(#[trigger] s@[k])
            },
        ensures
            i == total,
        decreases total - i,
    {
        match rest.next() {
            Some(c) => {
                if !char_is_white_space(c) {
                    if !found {
                        found = true;
                        start = i;
                    }
                    end = i + 1;
                }
                i = i + 1;
            },
            None => {
                break;
            },
        }
    }
    if found {
        proof {
            lemma_skip_leading_space(s@, start as int);
            lemma_skip_trailing_space(s@.skip(start as int), end - start);
        }
        s.substring_char(start, end)
    } else {
        proof {
            lemma_trimmed_blank(s@);
        }
        s.substring_char(0, 0)
    }
}

} // verus!
