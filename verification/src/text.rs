//! Text helpers for the reports: white space and trimming.

use vstd::prelude::*;

verus! {

/// Whether `c` has the Unicode property `White_Space`.
pub open spec fn is_white_space(c: char) -> bool {
    let n = c as u32;
    ||| 0x09 <= n <= 0x0d
    ||| n == 0x20
    ||| n == 0x85
    ||| n == 0xa0
    ||| n == 0x1680
    ||| 0x2000 <= n <= 0x200a
    ||| n == 0x2028
    ||| n == 0x2029
    ||| n == 0x202f
    ||| n == 0x205f
    ||| n == 0x3000
}

/// The index of the first character of `s` that is no white space, or the
/// length of `s` where there is none.
pub open spec fn trim_start(s: Seq<char>) -> int
    decreases s.len(),
{
    if s.len() == 0 || !is_white_space(s[0]) {
        0
    } else {
        1 + trim_start(s.drop_first())
    }
}

/// One past the index of the last character of `s` that is no white space, or
/// zero where there is none.
pub open spec fn trim_end(s: Seq<char>) -> int
    decreases s.len(),
{
    if s.len() == 0 {
        0
    } else if !is_white_space(s.last()) {
        s.len() as int
    } else {
        trim_end(s.drop_last())
    }
}

/// `s` without its leading and trailing white space.
pub open spec fn trimmed(s: Seq<char>) -> Seq<char> {
    if trim_start(s) < trim_end(s) {
        s.subrange(trim_start(s), trim_end(s))
    } else {
        Seq::empty()
    }
}

/// Whether `needle` occurs in `text` as a run of consecutive characters.
pub open spec fn occurs_in(needle: Seq<char>, text: Seq<char>) -> bool {
    exists|at: int| occurs_at(needle, text, at)
}

/// Whether `needle` stands in `text` from index `at` on.
pub open spec fn occurs_at(needle: Seq<char>, text: Seq<char>, at: int) -> bool {
    &&& 0 <= at
    &&& at + needle.len() <= text.len()
    &&& text.subrange(at, at + needle.len()) == needle
}

/// A text occurs in whatever is put together around it.
pub proof fn lemma_occurs_between(before: Seq<char>, needle: Seq<char>, after: Seq<char>)
    ensures
        occurs_in(needle, before + needle + after),
{
    let whole = before + needle + after;
    let at = before.len() as int;
    assert(whole.subrange(at, at + needle.len()) =~= needle);
    assert(occurs_at(needle, whole, at));
}

/// What occurs in a part occurs in the whole.
pub proof fn lemma_occurs_in_part(needle: Seq<char>, part: Seq<char>, whole: Seq<char>)
    requires
        occurs_in(needle, part),
        occurs_in(part, whole),
    ensures
        occurs_in(needle, whole),
{
    let inner = choose|at: int| occurs_at(needle, part, at);
    let outer = choose|at: int| occurs_at(part, whole, at);
    assert(whole.subrange(outer + inner, outer + inner + needle.len()) =~= whole.subrange(
        outer,
        outer + part.len(),
    ).subrange(inner, inner + needle.len()));
    assert(occurs_at(needle, whole, outer + inner));
}

/// `trim_start` is the one index with only white space before it and none at it.
pub proof fn lemma_trim_start(s: Seq<char>, a: int)
    requires
        0 <= a <= s.len(),
        forall|i: int| 0 <= i < a ==> is_white_space(s[i]),
        a < s.len() ==> !is_white_space(s[a]),
    ensures
        trim_start(s) == a,
    decreases s.len(),
{
    if s.len() == 0 || a == 0 {
    } else {
        let rest = s.drop_first();
        assert forall|i: int| 0 <= i < a - 1 implies is_white_space(rest[i]) by {
            assert(rest[i] == s[i + 1]);
        }
        if a - 1 < rest.len() {
            assert(rest[a - 1] == s[a]);
        }
        lemma_trim_start(rest, a - 1);
    }
}

/// `trim_end` is the one index with only white space from it on and none
/// just before it.
pub proof fn lemma_trim_end(s: Seq<char>, b: int)
    requires
        0 <= b <= s.len(),
        forall|i: int| b <= i < s.len() ==> is_white_space(s[i]),
        0 < b ==> !is_white_space(s[b - 1]),
    ensures
        trim_end(s) == b,
    decreases s.len(),
{
    if s.len() == 0 || b == s.len() {
    } else {
        let rest = s.drop_last();
        assert forall|i: int| b <= i < rest.len() implies is_white_space(rest[i]) by {
            assert(rest[i] == s[i]);
        }
        if 0 < b {
            assert(rest[b - 1] == s[b - 1]);
        }
        lemma_trim_end(rest, b);
    }
}

/// What trimming leaves neither starts nor ends with white space, and `s` is
/// that text with white space alone before and after it.
pub proof fn lemma_trimmed_is_tight(s: Seq<char>)
    ensures
        trimmed(s).len() > 0 ==> !is_white_space(trimmed(s)[0]) && !is_white_space(
            trimmed(s).last(),
        ),
        0 <= trim_start(s) <= s.len(),
        0 <= trim_end(s) <= s.len(),
        forall|i: int| 0 <= i < trim_start(s) ==> is_white_space(s[i]),
        forall|i: int| trim_end(s) <= i < s.len() ==> is_white_space(s[i]),
    decreases s.len(),
{
    if s.len() > 0 {
        let front = s.drop_last();
        let back = s.drop_first();
        lemma_trimmed_is_tight(front);
        lemma_trimmed_is_tight(back);
        assert forall|i: int| 0 <= i < trim_start(s) implies is_white_space(s[i]) by {
            if i > 0 {
                assert(back[i - 1] == s[i]);
            }
        }
        assert forall|i: int| trim_end(s) <= i < s.len() implies is_white_space(s[i]) by {
            if i < s.len() - 1 {
                assert(front[i] == s[i]);
            }
        }
        if trim_start(s) < trim_end(s) {
            lemma_first_visible(s);
            lemma_last_visible(s);
        }
    }
}

proof fn lemma_first_visible(s: Seq<char>)
    ensures
        trim_start(s) < s.len() ==> !is_white_space(s[trim_start(s)]),
        0 <= trim_start(s) <= s.len(),
    decreases s.len(),
{
    if s.len() > 0 && is_white_space(s[0]) {
        let back = s.drop_first();
        lemma_first_visible(back);
        if trim_start(back) < back.len() {
            assert(back[trim_start(back)] == s[trim_start(s)]);
        }
    }
}

proof fn lemma_last_visible(s: Seq<char>)
    ensures
        0 < trim_end(s) ==> !is_white_space(s[trim_end(s) - 1]),
        0 <= trim_end(s) <= s.len(),
    decreases s.len(),
{
    if s.len() > 0 && is_white_space(s.last()) {
        let front = s.drop_last();
        lemma_last_visible(front);
        if 0 < trim_end(front) {
            assert(front[trim_end(front) - 1] == s[trim_end(s) - 1]);
        }
    }
}

/// Tells white space from the rest.
pub fn white_space(c: char) -> (b: bool)
    ensures
        b == is_white_space(c),
{
    let n: u32 = c as u32;
    (0x09 <= n && n <= 0x0d) || n == 0x20 || n == 0x85 || n == 0xa0 || n == 0x1680 || (0x2000 <= n
        && n <= 0x200a) || n == 0x2028 || n == 0x2029 || n == 0x202f || n == 0x205f || n == 0x3000
}

/// Cuts the white space off both ends of `s`.
pub fn trim(s: &str) -> (t: &str)
    ensures
        t@ == trimmed(s@),
{
    broadcast use vstd::string::group_string_axioms;

    let mut first: Option<usize> = None;
    let mut end: usize = 0;
    let mut at: usize = 0;
    // The number of characters bounds the counters below.
    let total: usize = s.unicode_len();
    for c in it: s.chars()
        invariant
            it.seq() == s@,
            total == s@.len(),
            at == it.index(),
            first is None ==> end == 0 && forall|i: int| 0 <= i < at ==> is_white_space(s@[i]),
            first matches Some(a) ==> {
                &&& a < end <= at
                &&& !is_white_space(s@[a as int])
                &&& !is_white_space(s@[end - 1])
                &&& forall|i: int| 0 <= i < a ==> is_white_space(s@[i])
                &&& forall|i: int| end <= i < at ==> is_white_space(s@[i])
            },
    {
        assert(c == s@[at as int]);
        if !white_space(c) {
            if first.is_none() {
                first = Some(at);
            }
            end = at + 1;
        }
        at = at + 1;
    }
    match first {
        None => {
            proof {
                lemma_trim_end(s@, 0);
                lemma_trimmed_is_tight(s@);
            }
            let t = s.substring_char(0, 0);
            assert(t@ =~= Seq::<char>::empty());
            t
        },
        Some(a) => {
            proof {
                lemma_trim_start(s@, a as int);
                lemma_trim_end(s@, end as int);
            }
            s.substring_char(a, end)
        },
    }
}

} // verus!
