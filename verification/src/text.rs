//! White space and trimming.

use vstd::prelude::*;

verus! {

/// Whether `c` is one of the characters that Unicode marks as white space.
pub open spec fn is_white_space(c: char) -> bool {
    ||| '\u{9}' <= c <= '\u{D}'
    ||| c == ' '
    ||| c == '\u{85}'
    ||| c == '\u{A0}'
    ||| c == '\u{1680}'
    ||| '\u{2000}' <= c <= '\u{200A}'
    ||| c == '\u{2028}'
    ||| c == '\u{2029}'
    ||| c == '\u{202F}'
    ||| c == '\u{205F}'
    ||| c == '\u{3000}'
}

/// `s` without the white space it begins with.
pub open spec fn trim_start(s: Seq<char>) -> Seq<char>
    decreases s.len(),
{
    if s.len() > 0 && is_white_space(s.first()) {
        trim_start(s.drop_first())
    } else {
        s
    }
}

/// `s` without the white space it ends with.
pub open spec fn trim_end(s: Seq<char>) -> Seq<char>
    decreases s.len(),
{
    if s.len() > 0 && is_white_space(s.last()) {
        trim_end(s.drop_last())
    } else {
        s
    }
}

/// `s` without the white space around it.
pub open spec fn trimmed(s: Seq<char>) -> Seq<char> {
    trim_end(trim_start(s))
}

/// Whether every character of `s` from `from` up to, not including, `to` is
/// white space.
pub open spec fn all_white_space(s: Seq<char>, from: int, to: int) -> bool {
    forall|i: int| from <= i < to ==> is_white_space(#[trigger] s[i])
}

/// [`trim_start`] drops exactly the leading run of white space: if the first
/// `k` characters are white space and the next one, if any, is not, what is
/// left starts at `k`.
pub proof fn lemma_trim_start_at(s: Seq<char>, k: int)
    requires
        0 <= k <= s.len(),
        all_white_space(s, 0, k),
        k < s.len() ==> !is_white_space(s[k]),
    ensures
        trim_start(s) == s.subrange(k, s.len() as int),
    decreases k,
{
    if k == 0 {
        assert(s.subrange(0, s.len() as int) =~= s);
    } else {
        let rest = s.drop_first();
        assert(is_white_space(s[0]));
        assert forall|i: int| 0 <= i < k - 1 implies is_white_space(#[trigger] rest[i]) by {
            assert(rest[i] == s[i + 1]);
        }
        lemma_trim_start_at(rest, k - 1);
        assert(rest.subrange(k - 1, rest.len() as int) =~= s.subrange(k, s.len() as int));
    }
}

/// [`trim_end`] drops exactly the trailing run of white space: if everything
/// from `k` on is white space and the character before `k`, if any, is not,
/// what is left ends at `k`.
pub proof fn lemma_trim_end_at(s: Seq<char>, k: int)
    requires
        0 <= k <= s.len(),
        all_white_space(s, k, s.len() as int),
        0 < k ==> !is_white_space(s[k - 1]),
    ensures
        trim_end(s) == s.subrange(0, k),
    decreases s.len() - k,
{
    if k == s.len() {
        assert(s.subrange(0, k) =~= s);
    } else {
        let rest = s.drop_last();
        assert(is_white_space(s[s.len() - 1]));
        assert forall|i: int| k <= i < rest.len() implies is_white_space(#[trigger] rest[i]) by {
            assert(rest[i] == s[i]);
        }
        lemma_trim_end_at(rest, k);
        assert(rest.subrange(0, k) =~= s.subrange(0, k));
    }
}

/// Trimming keeps the last character of a text that does not end with
/// white space, so something is left of such a text.
pub proof fn lemma_trimmed_keeps_last(s: Seq<char>)
    requires
        s.len() > 0,
        !is_white_space(s.last()),
    ensures
        trimmed(s).len() > 0,
        trimmed(s).last() == s.last(),
    decreases s.len(),
{
    if is_white_space(s.first()) {
        let rest = s.drop_first();
        assert(rest.last() == s.last());
        lemma_trimmed_keeps_last(rest);
    }
}

/// Decides [`is_white_space`].
pub fn white_space(c: char) -> (r: bool)
    ensures
        r == is_white_space(c),
{
    ('\u{9}' <= c && c <= '\u{D}') || c == ' ' || c == '\u{85}' || c == '\u{A0}' || c == '\u{1680}'
        || ('\u{2000}' <= c && c <= '\u{200A}') || c == '\u{2028}' || c == '\u{2029}' || c
        == '\u{202F}' || c == '\u{205F}' || c == '\u{3000}'
}

/// The part of `s` between its leading and its trailing white space.
pub fn trim(s: &str) -> (r: &str)
    ensures
        r@ == trimmed(s@),
{
    let len: usize = s.unicode_len();
    // `start` counts the leading white space; `end` is one past the last
    // character seen that is not white space.
    let mut start: usize = 0;
    let mut end: usize = 0;
    let mut at: usize = 0;
    for c in it: s.chars()
        invariant
            it.seq() == s@,
            len == s@.len(),
            at == it.index(),
            start <= at,
            end <= at,
            all_white_space(s@, 0, start as int),
            all_white_space(s@, end as int, at as int),
            end > 0 ==> !is_white_space(s@[end - 1]) && start < end && !is_white_space(s@[start as int]),
            end == 0 ==> start == at,
    {
        let blank = white_space(c);
        if !blank {
            end = at + 1;
        } else if end == 0 {
            start = at + 1;
        }
        at = at + 1;
    }
    if end == 0 {
        end = start;
    }
    proof {
        let text = s@;
        lemma_trim_start_at(text, start as int);
        let tail = text.subrange(start as int, len as int);
        assert forall|i: int| end - start <= i < tail.len() implies is_white_space(
            #[trigger] tail[i],
        ) by {
            assert(tail[i] == text[i + start]);
        }
        lemma_trim_end_at(tail, end - start);
        assert(tail.subrange(0, end - start) =~= text.subrange(start as int, end as int));
    }
    s.substring_char(start, end)
}

} // verus!
