//! Small executable string utilities: conversion between `&str`, `Vec<char>`
//! and `String`, concatenation and joining, all with exact contracts over
//! `Seq<char>` views.

use vstd::prelude::*;

verus! {

/// What `char::is_alphanumeric` returns for a character; it depends on the
/// character alone.
pub uninterp spec fn char_is_alphanumeric(c: char) -> bool;

/// Relies on `char::is_alphanumeric`: a pure classification of the character.
#[verifier::external_body]
pub fn is_alphanumeric_char(c: char) -> (r: bool)
    ensures
        r == char_is_alphanumeric(c),
{
    c.is_alphanumeric()
}

/// What `char::is_whitespace` returns for a character; it depends on the
/// character alone.
pub uninterp spec fn char_is_whitespace(c: char) -> bool;

/// Relies on `char::is_whitespace`: a pure classification of the character.
#[verifier::external_body]
pub fn is_whitespace_char(c: char) -> (r: bool)
    ensures
        r == char_is_whitespace(c),
{
    c.is_whitespace()
}

/// Appends the characters of `v` to `s`.
pub fn append_chars(s: &mut String, v: &Vec<char>)
    ensures
        final(s)@ == old(s)@ + v@,
{
    let mut i: usize = 0;
    proof {
        assert(old(s)@ + v@.subrange(0, 0) =~= old(s)@);
    }
    while i < v.len()
        invariant
            i <= v@.len(),
            s@ == old(s)@ + v@.subrange(0, i as int),
        decreases v@.len() - i,
    {
        push_char(s, v[i]);
        proof {
            assert(old(s)@ + v@.subrange(0, i + 1) =~= (old(s)@ + v@.subrange(0, i as int)).push(
                v@[i as int],
            ));
        }
        i = i + 1;
    }
    proof {
        assert(v@.subrange(0, v@.len() as int) =~= v@);
    }
}

/// A character survives container-name sanitization if it is alphanumeric
/// or one of `-`, `_`.
pub open spec fn keeps_in_container_name(c: char) -> bool {
    char_is_alphanumeric(c) || c == '-' || c == '_'
}

/// Relies on `String::push`: appends exactly the one character.
#[verifier::external_body]
pub fn push_char(s: &mut String, c: char)
    ensures
        final(s)@ == old(s)@.push(c),
{
    s.push(c);
}

/// The characters of a string slice, as a vector.
pub fn chars_of(s: &str) -> (r: Vec<char>)
    ensures
        r@ == s@,
{
    let n = s.unicode_len();
    let mut out: Vec<char> = Vec::new();
    let mut i: usize = 0;
    while i < n
        invariant
            i <= n,
            n == s@.len(),
            out@ == s@.subrange(0, i as int),
        decreases n - i,
    {
        out.push(s.get_char(i));
        proof {
            assert(s@.subrange(0, i + 1) =~= s@.subrange(0, i as int).push(s@[i as int]));
        }
        i = i + 1;
    }
    proof {
        assert(s@.subrange(0, n as int) =~= s@);
    }
    out
}

/// A `String` holding exactly the given characters.
pub fn string_of(v: &Vec<char>) -> (r: String)
    ensures
        r@ == v@,
{
    let mut out = String::new();
    let mut i: usize = 0;
    while i < v.len()
        invariant
            i <= v@.len(),
            out@ == v@.subrange(0, i as int),
        decreases v@.len() - i,
    {
        push_char(&mut out, v[i]);
        proof {
            assert(v@.subrange(0, i + 1) =~= v@.subrange(0, i as int).push(v@[i as int]));
        }
        i = i + 1;
    }
    proof {
        assert(v@.subrange(0, v@.len() as int) =~= v@);
    }
    out
}

/// The concatenation of two string slices.
pub fn concat_strs(a: &str, b: &str) -> (r: String)
    ensures
        r@ == a@ + b@,
{
    let mut out = String::from_str(a);
    out.append(b);
    out
}

/// Whether two string slices hold the same characters.
pub fn str_eq(a: &str, b: &str) -> (r: bool)
    ensures
        r == (a@ == b@),
{
    let na = a.unicode_len();
    let nb = b.unicode_len();
    if na != nb {
        return false;
    }
    let mut i: usize = 0;
    while i < na
        invariant
            i <= na,
            na == a@.len(),
            na == b@.len(),
            forall|j: int| 0 <= j < i ==> a@[j] == b@[j],
        decreases na - i,
    {
        if a.get_char(i) != b.get_char(i) {
            return false;
        }
        i = i + 1;
    }
    proof {
        assert(a@ =~= b@);
    }
    true
}

/// The characters of `v` from `from` (inclusive) to `to` (exclusive).
pub fn subvec(v: &Vec<char>, from: usize, to: usize) -> (r: Vec<char>)
    requires
        from <= to <= v@.len(),
    ensures
        r@ == v@.subrange(from as int, to as int),
{
    let mut out: Vec<char> = Vec::new();
    let mut i: usize = from;
    proof {
        assert(v@.subrange(from as int, from as int) =~= Seq::<char>::empty());
    }
    while i < to
        invariant
            from <= i <= to <= v@.len(),
            out@ == v@.subrange(from as int, i as int),
        decreases to - i,
    {
        out.push(v[i]);
        proof {
            assert(v@.subrange(from as int, i + 1) =~= v@.subrange(from as int, i as int).push(
                v@[i as int],
            ));
        }
        i = i + 1;
    }
    out
}

/// Splits at the first occurrence of `sep`: the prefix before it (which does
/// not contain `sep`) and the suffix after it; `None` when `sep` does not
/// occur at all.
pub fn split_first(s: &Vec<char>, sep: char) -> (r: Option<(Vec<char>, Vec<char>)>)
    ensures
        match r {
            Some(parts) => {
                &&& s@ == parts.0@ + seq![sep] + parts.1@
                &&& !parts.0@.contains(sep)
            },
            None => !s@.contains(sep),
        },
{
    let n = s.len();
    let mut i: usize = 0;
    while i < n
        invariant
            i <= n,
            n == s@.len(),
            forall|j: int| 0 <= j < i ==> s@[j] != sep,
        decreases n - i,
    {
        if s[i] == sep {
            let pre = subvec(s, 0, i);
            let suf = subvec(s, i + 1, n);
            proof {
                assert(s@ =~= pre@ + seq![sep] + suf@);
                assert(forall|j: int| 0 <= j < pre@.len() ==> pre@[j] != sep);
                assert(!pre@.contains(sep));
            }
            return Some((pre, suf));
        }
        i = i + 1;
    }
    proof {
        assert(!s@.contains(sep));
    }
    None
}

/// Whether `needle` occurs in `hay` starting at position `i`.
pub open spec fn is_sub_at(hay: Seq<char>, needle: Seq<char>, i: int) -> bool {
    0 <= i && i + needle.len() <= hay.len() && hay.subrange(i, i + needle.len()) == needle
}

/// Whether `needle` occurs anywhere in `hay`.
pub open spec fn contains_sub(hay: Seq<char>, needle: Seq<char>) -> bool {
    exists|i: int| is_sub_at(hay, needle, i)
}

/// Whether `needle` occurs in `hay` starting at `at`.
fn matches_at(hay: &Vec<char>, needle: &Vec<char>, at: usize) -> (r: bool)
    requires
        at + needle@.len() <= hay@.len(),
    ensures
        r == is_sub_at(hay@, needle@, at as int),
{
    let hay_len = hay.len();
    let mut j: usize = 0;
    while j < needle.len()
        invariant
            j <= needle@.len(),
            at + needle@.len() <= hay@.len(),
            hay@.len() <= usize::MAX,
            forall|m: int| 0 <= m < j ==> hay@[at + m] == needle@[m],
        decreases needle@.len() - j,
    {
        if hay[at + j] != needle[j] {
            proof {
                assert(hay@[at + j] != needle@[j as int]);
                if is_sub_at(hay@, needle@, at as int) {
                    assert(hay@.subrange(at as int, at + needle@.len())[j as int] == needle@[
                        j as int
                    ]);
                }
            }
            return false;
        }
        j = j + 1;
    }
    proof {
        assert(hay@.subrange(at as int, at + needle@.len()) =~= needle@);
    }
    true
}

/// Finds the first occurrence of `needle` in `hay`; an empty needle matches
/// at position zero.
pub fn find_sub(hay: &Vec<char>, needle: &Vec<char>) -> (r: Option<usize>)
    ensures
        match r {
            Some(i) => is_sub_at(hay@, needle@, i as int) && forall|j: int|
                0 <= j < i ==> !is_sub_at(hay@, needle@, j),
            None => !contains_sub(hay@, needle@),
        },
{
    if needle.len() == 0 {
        proof {
            assert(hay@.subrange(0, 0) =~= needle@);
        }
        return Some(0);
    }
    if needle.len() > hay.len() {
        proof {
            if contains_sub(hay@, needle@) {
                let i = choose|i: int| is_sub_at(hay@, needle@, i);
            }
        }
        return None;
    }
    let last = hay.len() - needle.len();
    let mut i: usize = 0;
    while i <= last
        invariant
            i <= last + 1,
            last == hay@.len() - needle@.len(),
            1 <= needle@.len() <= hay@.len(),
            hay@.len() <= usize::MAX,
            forall|j: int| 0 <= j < i ==> !is_sub_at(hay@, needle@, j),
        decreases last - i + 1,
    {
        if matches_at(hay, needle, i) {
            return Some(i);
        }
        i = i + 1;
    }
    proof {
        if contains_sub(hay@, needle@) {
            let j = choose|j: int| is_sub_at(hay@, needle@, j);
            assert(j <= last);
            assert(!is_sub_at(hay@, needle@, j));
        }
    }
    None
}

/// What replacing the first occurrence of `needle` yields: the text before
/// the match, the replacement, and the text after; the text unchanged when
/// `needle` does not occur.
pub open spec fn replaced_first(
    hay: Seq<char>,
    needle: Seq<char>,
    repl: Seq<char>,
    found: Option<int>,
) -> Seq<char> {
    match found {
        Some(i) => hay.subrange(0, i) + repl + hay.subrange(i + needle.len(), hay.len() as int),
        None => hay,
    }
}

/// Replaces the first occurrence of `needle` in `hay` by `repl`; returns
/// `hay` unchanged when `needle` does not occur.
pub fn replace_first(hay: &str, needle: &str, repl: &str) -> (r: String)
    ensures
        !contains_sub(hay@, needle@) ==> r@ == hay@,
        forall|i: int|
            is_sub_at(hay@, needle@, i) && (forall|j: int|
                0 <= j < i ==> !is_sub_at(hay@, needle@, j)) ==> r@ == replaced_first(
                hay@,
                needle@,
                repl@,
                Some(i),
            ),
{
    let hay_chars = chars_of(hay);
    let needle_chars = chars_of(needle);
    match find_sub(&hay_chars, &needle_chars) {
        Some(i) => {
            let hay_len = hay_chars.len();
            let before = subvec(&hay_chars, 0, i);
            let after = subvec(&hay_chars, i + needle_chars.len(), hay_len);
            let mut out = string_of(&before);
            out.append(repl);
            append_chars(&mut out, &after);
            proof {
                assert forall|k: int|
                    is_sub_at(hay@, needle@, k) && (forall|j: int|
                        0 <= j < k ==> !is_sub_at(hay@, needle@, j)) implies out@
                    == replaced_first(hay@, needle@, repl@, Some(k)) by {
                    if k < i {
                        assert(!is_sub_at(hay@, needle@, k));
                    } else if k > i {
                        assert(!is_sub_at(hay@, needle@, i as int));
                    } else {
                        assert(out@ == replaced_first(hay@, needle@, repl@, Some(i as int)));
                    }
                }
            }
            out
        },
        None => {
            string_of(&hay_chars)
        },
    }
}

/// The items joined by `sep`: nothing for an empty list, the single item
/// alone, and otherwise each further item preceded by one separator.
pub open spec fn joined(items: Seq<Seq<char>>, sep: Seq<char>) -> Seq<char>
    decreases items.len(),
{
    if items.len() == 0 {
        Seq::empty()
    } else if items.len() == 1 {
        items[0]
    } else {
        joined(items.drop_last(), sep) + sep + items.last()
    }
}

/// Joins the items with the separator between consecutive items.
pub fn join_with(items: &Vec<String>, sep: &str) -> (r: String)
    ensures
        r@ == joined(items@.map_values(|s: String| s@), sep@),
{
    let ghost views = items@.map_values(|s: String| s@);
    let mut out = String::new();
    let mut i: usize = 0;
    proof {
        assert(views.take(0) =~= Seq::<Seq<char>>::empty());
        assert(out@ =~= joined(views.take(0), sep@));
    }
    while i < items.len()
        invariant
            i <= items@.len(),
            views == items@.map_values(|s: String| s@),
            out@ == joined(views.take(i as int), sep@),
        decreases items@.len() - i,
    {
        if i > 0 {
            out.append(sep);
        }
        let item = &items[i];
        out.append(item.as_str());
        proof {
            assert(views.take(i + 1).drop_last() =~= views.take(i as int));
            assert(views.take(i + 1).last() == views[i as int]);
            if i == 0 {
                assert(out@ =~= joined(views.take(1), sep@));
            } else {
                assert(out@ =~= joined(views.take(i + 1), sep@));
            }
        }
        i = i + 1;
    }
    proof {
        assert(views.take(items@.len() as int) =~= views);
    }
    out
}

/// The characters of `s` before the first occurrence of `sep` (all of `s`
/// when `sep` does not occur).
pub open spec fn upto_sep(s: Seq<char>, sep: char) -> Seq<char>
    decreases s.len(),
{
    if s.len() == 0 {
        s
    } else if s[0] == sep {
        Seq::empty()
    } else {
        seq![s[0]] + upto_sep(s.drop_first(), sep)
    }
}

/// The characters of `s` after the first occurrence of `sep`, or `None` when
/// `sep` does not occur.
pub open spec fn after_sep(s: Seq<char>, sep: char) -> Option<Seq<char>>
    decreases s.len(),
{
    if s.len() == 0 {
        None
    } else if s[0] == sep {
        Some(s.drop_first())
    } else {
        after_sep(s.drop_first(), sep)
    }
}

pub proof fn lemma_sep_split(pre: Seq<char>, suf: Seq<char>, sep: char)
    requires
        !pre.contains(sep),
    ensures
        upto_sep(pre + seq![sep] + suf, sep) == pre,
        after_sep(pre + seq![sep] + suf, sep) == Some(suf),
    decreases pre.len(),
{
    let s = pre + seq![sep] + suf;
    if pre.len() == 0 {
        assert(s[0] == sep);
        assert(s.drop_first() =~= suf);
        assert(upto_sep(s, sep) =~= pre);
    } else {
        assert(pre.contains(pre[0]));
        assert(s[0] == pre[0]);
        assert(s.drop_first() =~= pre.drop_first() + seq![sep] + suf);
        assert(!pre.drop_first().contains(sep)) by {
            if pre.drop_first().contains(sep) {
                let i = choose|i: int|
                    0 <= i < pre.drop_first().len() && pre.drop_first()[i] == sep;
                assert(pre[i + 1] == sep);
                assert(pre.contains(sep));
            }
        }
        lemma_sep_split(pre.drop_first(), suf, sep);
        assert(seq![pre[0]] + pre.drop_first() =~= pre);
    }
}

pub proof fn lemma_no_sep(s: Seq<char>, sep: char)
    requires
        !s.contains(sep),
    ensures
        after_sep(s, sep) is None,
        upto_sep(s, sep) == s,
    decreases s.len(),
{
    if s.len() > 0 {
        assert(s.contains(s[0]));
        assert(!s.drop_first().contains(sep)) by {
            if s.drop_first().contains(sep) {
                let i = choose|i: int| 0 <= i < s.drop_first().len() && s.drop_first()[i] == sep;
                assert(s[i + 1] == sep);
                assert(s.contains(sep));
            }
        }
        lemma_no_sep(s.drop_first(), sep);
        assert(seq![s[0]] + s.drop_first() =~= s);
    }
}

/// A copy of a vector of strings, element by element.
pub fn clone_strings(v: &Vec<String>) -> (r: Vec<String>)
    ensures
        r@ == v@,
{
    let mut out: Vec<String> = Vec::new();
    let mut i: usize = 0;
    proof {
        assert(out@ =~= v@.take(0));
    }
    while i < v.len()
        invariant
            i <= v@.len(),
            out@ == v@.take(i as int),
        decreases v@.len() - i,
    {
        let ghost prev = out@;
        let s = v[i].clone();
        out.push(s);
        proof {
            assert(v@.take(i + 1) =~= v@.take(i as int).push(v@[i as int]));
            assert(out@ =~= prev.push(v@[i as int]));
        }
        i = i + 1;
    }
    proof {
        assert(v@.take(v@.len() as int) =~= v@);
    }
    out
}

/// The segments of `s` split at every occurrence of `sep`, empty segments
/// kept, carrying the segment built so far and the segments already
/// complete.
pub open spec fn split_char_from(
    s: Seq<char>,
    sep: char,
    cur: Seq<char>,
    acc: Seq<Seq<char>>,
) -> Seq<Seq<char>>
    decreases s.len(),
{
    if s.len() == 0 {
        acc.push(cur)
    } else if s[0] == sep {
        split_char_from(s.drop_first(), sep, Seq::empty(), acc.push(cur))
    } else {
        split_char_from(s.drop_first(), sep, cur.push(s[0]), acc)
    }
}

/// The segments of `s` split at every occurrence of `sep`; an empty input
/// yields one empty segment.
pub open spec fn split_char(s: Seq<char>, sep: char) -> Seq<Seq<char>> {
    split_char_from(s, sep, Seq::empty(), Seq::empty())
}

/// Splits `v` at every occurrence of `sep`, keeping empty segments.
pub fn split_all(v: &Vec<char>, sep: char) -> (r: Vec<String>)
    ensures
        r@.map_values(|t: String| t@) == split_char(v@, sep),
{
    let mut acc: Vec<String> = Vec::new();
    let mut cur: Vec<char> = Vec::new();
    let mut i: usize = 0;
    proof {
        assert(v@.skip(0) =~= v@);
        assert(acc@.map_values(|t: String| t@) =~= Seq::<Seq<char>>::empty());
    }
    while i < v.len()
        invariant
            i <= v@.len(),
            split_char_from(v@.skip(i as int), sep, cur@, acc@.map_values(|t: String| t@))
                == split_char(v@, sep),
        decreases v@.len() - i,
    {
        let c = v[i];
        let ghost prev_rest = v@.skip(i as int);
        let ghost prev_cur = cur@;
        let ghost prev_views = acc@.map_values(|t: String| t@);
        proof {
            assert(prev_rest[0] == v@[i as int]);
            assert(prev_rest.drop_first() =~= v@.skip(i + 1));
        }
        if c == sep {
            let seg = string_of(&cur);
            acc.push(seg);
            cur = Vec::new();
            proof {
                assert(acc@.map_values(|t: String| t@) =~= prev_views.push(prev_cur));
            }
        } else {
            cur.push(c);
        }
        i = i + 1;
    }
    proof {
        assert(v@.skip(v@.len() as int) =~= Seq::<char>::empty());
    }
    let seg = string_of(&cur);
    acc.push(seg);
    proof {
        assert(acc@.map_values(|t: String| t@) =~= split_char(v@, sep));
    }
    acc
}

/// `s` without its leading whitespace.
pub open spec fn ws_trim_start(s: Seq<char>) -> Seq<char>
    decreases s.len(),
{
    if s.len() > 0 && char_is_whitespace(s[0]) {
        ws_trim_start(s.drop_first())
    } else {
        s
    }
}

/// `s` without its trailing whitespace.
pub open spec fn ws_trim_end(s: Seq<char>) -> Seq<char>
    decreases s.len(),
{
    if s.len() > 0 && char_is_whitespace(s.last()) {
        ws_trim_end(s.drop_last())
    } else {
        s
    }
}

/// `s` without leading and trailing whitespace.
pub open spec fn trimmed(s: Seq<char>) -> Seq<char> {
    ws_trim_end(ws_trim_start(s))
}

/// Removes leading and trailing whitespace.
pub fn trim_chars(v: &Vec<char>) -> (r: Vec<char>)
    ensures
        r@ == trimmed(v@),
{
    let n = v.len();
    let mut start: usize = 0;
    proof {
        assert(v@.skip(0) =~= v@);
    }
    while start < n
        invariant
            start <= n,
            n == v@.len(),
            ws_trim_start(v@.skip(start as int)) == ws_trim_start(v@),
        ensures
            start <= n,
            n == v@.len(),
            ws_trim_start(v@.skip(start as int)) == ws_trim_start(v@),
            start == n || !char_is_whitespace(v@[start as int]),
        decreases n - start,
    {
        let ghost rest = v@.skip(start as int);
        proof {
            assert(rest[0] == v@[start as int]);
            assert(rest.drop_first() =~= v@.skip(start + 1));
        }
        if !is_whitespace_char(v[start]) {
            break ;
        }
        start = start + 1;
    }
    proof {
        if start == n {
            assert(v@.skip(n as int) =~= Seq::<char>::empty());
        } else {
            assert(v@.skip(start as int)[0] == v@[start as int]);
        }
        assert(ws_trim_start(v@.skip(start as int)) == v@.skip(start as int));
    }
    let ghost stripped = ws_trim_start(v@);
    proof {
        assert(stripped == v@.skip(start as int));
    }
    let mut end: usize = n;
    proof {
        assert(v@.subrange(start as int, n as int) =~= v@.skip(start as int));
    }
    while end > start
        invariant
            start <= end <= n,
            n == v@.len(),
            stripped == v@.skip(start as int),
            stripped == ws_trim_start(v@),
            ws_trim_end(v@.subrange(start as int, end as int)) == ws_trim_end(stripped),
        ensures
            start <= end <= n,
            n == v@.len(),
            ws_trim_end(v@.subrange(start as int, end as int)) == ws_trim_end(stripped),
            end == start || !char_is_whitespace(v@[end - 1]),
        decreases end,
    {
        let ghost part = v@.subrange(start as int, end as int);
        proof {
            assert(part.last() == v@[end - 1]);
            assert(part.drop_last() =~= v@.subrange(start as int, end - 1));
        }
        if !is_whitespace_char(v[end - 1]) {
            break ;
        }
        end = end - 1;
    }
    let out = subvec(v, start, end);
    proof {
        let part = v@.subrange(start as int, end as int);
        if end == start {
            assert(part =~= Seq::<char>::empty());
        } else {
            assert(part.last() == v@[end - 1]);
        }
        assert(ws_trim_end(part) == part);
    }
    out
}

/// The characters of `s` after its last occurrence of `sep`; all of `s`
/// when `sep` does not occur.
pub open spec fn after_last_sep(s: Seq<char>, sep: char) -> Seq<char>
    decreases s.len(),
{
    if s.len() == 0 {
        s
    } else if s.last() == sep {
        Seq::empty()
    } else {
        after_last_sep(s.drop_last(), sep).push(s.last())
    }
}

/// The characters after the last occurrence of `sep`, or the whole input
/// when `sep` does not occur.
pub fn split_after_last(v: &Vec<char>, sep: char) -> (r: Vec<char>)
    ensures
        r@ == after_last_sep(v@, sep),
{
    let n = v.len();
    let mut end: usize = n;
    proof {
        assert(v@.subrange(0, n as int) =~= v@);
        assert(after_last_sep(v@, sep) + v@.subrange(n as int, n as int) =~= after_last_sep(
            v@,
            sep,
        ));
    }
    while end > 0
        invariant
            end <= n,
            n == v@.len(),
            after_last_sep(v@, sep) == after_last_sep(v@.subrange(0, end as int), sep)
                + v@.subrange(end as int, n as int),
        decreases end,
    {
        let ghost part = v@.subrange(0, end as int);
        proof {
            assert(part.last() == v@[end - 1]);
            assert(part.drop_last() =~= v@.subrange(0, end - 1));
        }
        if v[end - 1] == sep {
            let out = subvec(v, end, n);
            proof {
                assert(after_last_sep(part, sep) =~= Seq::<char>::empty());
                assert(after_last_sep(v@, sep) =~= v@.subrange(end as int, n as int));
            }
            return out;
        }
        proof {
            assert(after_last_sep(part, sep) == after_last_sep(part.drop_last(), sep).push(
                part.last(),
            ));
            assert(after_last_sep(part.drop_last(), sep).push(part.last()) + v@.subrange(
                end as int,
                n as int,
            ) =~= after_last_sep(part.drop_last(), sep) + v@.subrange(end - 1, n as int));
        }
        end = end - 1;
    }
    proof {
        assert(v@.subrange(0, 0) =~= Seq::<char>::empty());
        assert(after_last_sep(Seq::<char>::empty(), sep) =~= Seq::<char>::empty());
        assert(after_last_sep(v@, sep) =~= v@.subrange(0, n as int));
        assert(v@.subrange(0, n as int) =~= v@);
    }
    let out = subvec(v, 0, n);
    out
}

/// Filtering distributes over push: filtering `s.push(c)` keeps the filtered
/// prefix and appends `c` exactly when the predicate holds of it.
pub proof fn lemma_filter_push<A>(s: Seq<A>, pred: spec_fn(A) -> bool, c: A)
    ensures
        s.push(c).filter(pred) == if pred(c) {
            s.filter(pred).push(c)
        } else {
            s.filter(pred)
        },
{
    reveal(Seq::filter);
    assert(s.push(c).drop_last() =~= s);
    assert(s.push(c).last() == c);
}

} // verus!
