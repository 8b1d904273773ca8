//! Cutting texts at a separator.

use vstd::prelude::*;

verus! {

/// What follows the last `sep` in `s`; all of `s` where it holds no `sep`.
pub open spec fn after_last(s: Seq<char>, sep: char) -> Seq<char>
    decreases s.len(),
{
    if s.len() == 0 {
        s
    } else if s.last() == sep {
        Seq::empty()
    } else {
        after_last(s.drop_last(), sep).push(s.last())
    }
}

/// What precedes the first `sep` in `s`; all of `s` where it holds no `sep`.
pub open spec fn before_first(s: Seq<char>, sep: char) -> Seq<char>
    decreases s.len(),
{
    if s.len() == 0 {
        s
    } else if s.first() == sep {
        Seq::empty()
    } else {
        seq![s.first()] + before_first(s.drop_first(), sep)
    }
}

/// What follows the last `sep` in `s`; all of `s` where it holds no `sep`.
pub fn text_after_last(s: &str, sep: char) -> (tail: String)
    ensures
        tail@ == after_last(s@, sep),
        !tail@.contains(sep),
        !s@.contains(sep) ==> tail@ == s@,
{
    proof {
        lemma_after_last(s@, sep);
    }
    let n = s.unicode_len();
    let mut start: usize = 0;
    let mut i: usize = 0;
    for c in it: s.chars()
        invariant
            n == s@.len(),
            i == it.index(),
            it.seq() == s@,
            0 <= start <= i,
            after_last(s@.take(i as int), sep) == s@.subrange(start as int, i as int),
    {
        assert(s@.take(i + 1).drop_last() =~= s@.take(i as int));
        assert(s@.take(i + 1).last() == c);
        if c == sep {
            start = i + 1;
            assert(s@.subrange(start as int, start as int) =~= Seq::<char>::empty());
        } else {
            assert(s@.subrange(start as int, i as int).push(c) =~= s@.subrange(
                start as int,
                i + 1,
            ));
        }
        i = i + 1;
    }
    assert(s@.take(i as int) =~= s@);
    s.substring_char(start, i).to_owned()
}

/// What precedes the first `sep` in `s`; all of `s` where it holds no `sep`.
pub fn text_before_first(s: &str, sep: char) -> (head: String)
    ensures
        head@ == before_first(s@, sep),
{
    let n = s.unicode_len();
    let mut end: usize = n;
    let mut found = false;
    let mut i: usize = 0;
    for c in it: s.chars()
        invariant
            n == s@.len(),
            i == it.index(),
            it.seq() == s@,
            found ==> end < i && s@[end as int] == sep,
            !found ==> end == n,
            forall|k: int| 0 <= k < i && k < end ==> s@[k] != sep,
    {
        if !found && c == sep {
            end = i;
            found = true;
        }
        i = i + 1;
    }
    proof {
        lemma_before_first(s@, sep, end as int);
    }
    s.substring_char(0, end).to_owned()
}

/// What follows the first `sep` in `s`; `None` where it holds no `sep`.
pub open spec fn after_first(s: Seq<char>, sep: char) -> Option<Seq<char>> {
    if before_first(s, sep).len() < s.len() {
        Some(s.skip(before_first(s, sep).len() as int + 1))
    } else {
        None
    }
}

/// `before_first` is no longer than the text.
pub proof fn lemma_before_first_len(s: Seq<char>, sep: char)
    ensures
        before_first(s, sep).len() <= s.len(),
    decreases s.len(),
{
    if s.len() > 0 && s.first() != sep {
        lemma_before_first_len(s.drop_first(), sep);
    }
}

/// The text cut at its first `sep`: what precedes it, and what follows it
/// where there is one.
pub fn split_first(s: &str, sep: char) -> (parts: (String, Option<String>))
    ensures
        parts.0@ == before_first(s@, sep),
        match parts.1 {
            Some(rest) => after_first(s@, sep) == Some(rest@),
            None => after_first(s@, sep) is None,
        },
{
    let n = s.unicode_len();
    let head = text_before_first(s, sep);
    let cut = head.as_str().unicode_len();
    proof {
        lemma_before_first_len(s@, sep);
    }
    if cut < n {
        let rest = s.substring_char(cut + 1, n).to_owned();
        assert(rest@ =~= s@.skip(cut + 1));
        (head, Some(rest))
    } else {
        (head, None)
    }
}

/// The text without its first character where that is `c`.
pub open spec fn strip_leading(s: Seq<char>, c: char) -> Seq<char> {
    if s.len() > 0 && s[0] == c {
        s.skip(1)
    } else {
        s
    }
}

/// The text without its first character where that is `c`.
pub fn text_strip_leading(s: &str, c: char) -> (rest: String)
    ensures
        rest@ == strip_leading(s@, c),
{
    let n = s.unicode_len();
    if n > 0 && s.get_char(0) == c {
        let rest = s.substring_char(1, n).to_owned();
        assert(rest@ =~= s@.skip(1));
        rest
    } else {
        s.to_owned()
    }
}

/// Whether two texts are the same.
pub fn same_text(a: &str, b: &str) -> (same: bool)
    ensures
        same == (a@ == b@),
{
    let a = a.to_owned();
    let b = b.to_owned();
    a == b
}

/// The text in lower case, as `str::to_lowercase` gives it.
pub uninterp spec fn lowercase(s: Seq<char>) -> Seq<char>;

/// `str::to_lowercase`: the result depends on the text alone.
#[verifier::external_body]
pub(crate) fn to_lowercase(s: &str) -> (lower: String)
    ensures
        lower@ == lowercase(s@),
{
    s.to_lowercase()
}

/// The text in lower case.
pub fn to_lowercase_text(s: &str) -> (lower: String)
    ensures
        lower@ == lowercase(s@),
{
    to_lowercase(s)
}

/// Where `end` is the place of the first `sep` in `s`, or the length of `s`
/// where it holds none, `before_first` is what precedes `end`.
pub proof fn lemma_before_first(s: Seq<char>, sep: char, end: int)
    requires
        0 <= end <= s.len(),
        forall|k: int| 0 <= k < end ==> s[k] != sep,
        end < s.len() ==> s[end] == sep,
    ensures
        before_first(s, sep) == s.subrange(0, end),
    decreases s.len(),
{
    if s.len() == 0 {
        assert(s.subrange(0, end) =~= s);
    } else if s.first() == sep {
        assert(end == 0);
        assert(s.subrange(0, end) =~= Seq::<char>::empty());
    } else {
        let rest = s.drop_first();
        assert forall|k: int| 0 <= k < end - 1 implies rest[k] != sep by {
            assert(rest[k] == s[k + 1]);
        }
        lemma_before_first(rest, sep, end - 1);
        assert(seq![s.first()] + rest.subrange(0, end - 1) =~= s.subrange(0, end));
    }
}

/// `after_last` holds no separator, and `s` is what precedes the last
/// separator, the separator and `after_last`, or `after_last` alone.
pub proof fn lemma_after_last(s: Seq<char>, sep: char)
    ensures
        !after_last(s, sep).contains(sep),
        after_last(s, sep).len() <= s.len(),
        s.subrange(s.len() - after_last(s, sep).len(), s.len() as int) == after_last(s, sep),
        s.contains(sep) ==> after_last(s, sep).len() < s.len() && s[s.len() - after_last(
            s,
            sep,
        ).len() - 1] == sep,
        !s.contains(sep) ==> after_last(s, sep) == s,
    decreases s.len(),
{
    let tail = after_last(s, sep);
    if s.len() == 0 {
        assert(s.subrange(0, 0) =~= tail);
    } else if s.last() == sep {
        assert(s.subrange(s.len() as int, s.len() as int) =~= tail);
    } else {
        let init = s.drop_last();
        lemma_after_last(init, sep);
        let t = after_last(init, sep);
        assert(tail == t.push(s.last()));
        assert(s.subrange(s.len() - tail.len(), s.len() as int) =~= tail) by {
            assert(init.subrange(init.len() - t.len(), init.len() as int) == t);
            assert forall|k: int| 0 <= k < tail.len() implies s.subrange(
                s.len() - tail.len(),
                s.len() as int,
            )[k] == tail[k] by {
                if k < t.len() {
                    assert(t[k] == init.subrange(init.len() - t.len(), init.len() as int)[k]);
                }
            }
        }
        if s.contains(sep) {
            let i = choose|i: int| 0 <= i < s.len() && s[i] == sep;
            assert(i < init.len());
            assert(init[i] == sep);
            assert(init.contains(sep));
        } else {
            assert forall|i: int| 0 <= i < init.len() implies init[i] != sep by {
                assert(s[i] == init[i]);
                if init[i] == sep {
                    assert(s.contains(sep));
                }
            }
            if init.contains(sep) {
                let i = choose|i: int| 0 <= i < init.len() && init[i] == sep;
                assert(false);
            }
            assert(tail =~= s);
        }
        if tail.contains(sep) {
            let i = choose|i: int| 0 <= i < tail.len() && tail[i] == sep;
            if i < t.len() {
                assert(t[i] == sep);
                assert(t.contains(sep));
            }
            assert(false);
        }
    }
}

} // verus!
