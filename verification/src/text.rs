//! Substring search and related character-sequence utilities that the
//! manifest and source rewriters are specified over.

use vstd::prelude::*;
use vstd::string::*;

verus! {

/// `pat` occurs in `s` starting at index `i`.
pub open spec fn match_at(s: Seq<char>, pat: Seq<char>, i: int) -> bool {
    0 <= i && i + pat.len() <= s.len() && s.subrange(i, i + pat.len() as int) == pat
}

/// `pat` occurs somewhere in `s` as a contiguous run of characters.
pub open spec fn contains_seq(s: Seq<char>, pat: Seq<char>) -> bool {
    exists|i: int| match_at(s, pat, i)
}

/// Compares `pat` against the characters of `s` starting at `at`.
fn is_match_at(s: &str, pat: &str, at: usize, s_len: usize, p_len: usize) -> (r: bool)
    requires
        s_len == s@.len(),
        p_len == pat@.len(),
        at + p_len <= s_len,
    ensures
        r == match_at(s@, pat@, at as int),
{
    let mut j: usize = 0;
    let mut ok: bool = true;
    while ok && j < p_len
        invariant
            j <= p_len,
            s_len == s@.len(),
            p_len == pat@.len(),
            at + p_len <= s_len,
            ok ==> forall|t: int| 0 <= t < j ==> s@[at + t] == pat@[t],
            !ok ==> !match_at(s@, pat@, at as int),
        decreases (if ok { 1int } else { 0int }), p_len - j,
    {
        if s.get_char(at + j) != pat.get_char(j) {
            proof {
                assert(s@.subrange(at as int, at + pat@.len() as int) != pat@) by {
                    assert(s@.subrange(at as int, at + pat@.len() as int)[j as int]
                        == s@[at + j]);
                }
            }
            ok = false;
        } else {
            j = j + 1;
        }
    }
    proof {
        if ok {
            assert(s@.subrange(at as int, at + pat@.len() as int) =~= pat@);
        }
    }
    ok
}

/// Whether `pat` occurs as a contiguous substring of `s`, as `str::contains`
/// reports it.
pub fn contains_substring(s: &str, pat: &str) -> (r: bool)
    ensures
        r == contains_seq(s@, pat@),
{
    let s_len = s.unicode_len();
    let p_len = pat.unicode_len();
    if p_len > s_len {
        return false;
    }
    if p_len == 0 {
        proof {
            assert(s@.subrange(0, 0) =~= pat@);
            assert(match_at(s@, pat@, 0));
        }
        return true;
    }
    let mut i: usize = 0;
    while i <= s_len - p_len
        invariant
            1 <= p_len <= s_len,
            s_len == s@.len(),
            p_len == pat@.len(),
            i <= s_len - p_len + 1,
            forall|k: int| 0 <= k < i ==> !match_at(s@, pat@, k),
        decreases s_len - p_len - i + 1,
    {
        if is_match_at(s, pat, i, s_len, p_len) {
            return true;
        }
        i = i + 1;
    }
    false
}

/// The result of rewriting every occurrence of `pat` in `s` to `repl`,
/// scanning left to right without revisiting replaced text, as
/// `str::replace` does for a non-empty pattern.  An empty pattern is
/// taken to match nowhere, leaving `s` unchanged.
pub open spec fn replace_all_seq(s: Seq<char>, pat: Seq<char>, repl: Seq<char>) -> Seq<char>
    decreases s.len(),
{
    if pat.len() == 0 || s.len() < pat.len() {
        s
    } else if s.subrange(0, pat.len() as int) == pat {
        repl + replace_all_seq(s.skip(pat.len() as int), pat, repl)
    } else {
        seq![s[0]] + replace_all_seq(s.skip(1), pat, repl)
    }
}

/// Rewrites every occurrence of `pat` in `s` to `repl`, leftmost first,
/// never rescanning text that a replacement produced.
pub fn replace_all(s: &str, pat: &str, repl: &str) -> (r: String)
    ensures
        r@ == replace_all_seq(s@, pat@, repl@),
{
    let s_len = s.unicode_len();
    let p_len = pat.unicode_len();
    if p_len == 0 {
        return s.to_owned();
    }
    let mut out = String::new();
    let mut i: usize = 0;
    proof {
        assert(s@.skip(0) =~= s@);
        assert(out@ + replace_all_seq(s@, pat@, repl@) =~= replace_all_seq(s@, pat@, repl@));
    }
    while p_len <= s_len && i <= s_len - p_len
        invariant
            1 <= p_len,
            i <= s_len,
            s_len == s@.len(),
            p_len == pat@.len(),
            replace_all_seq(s@, pat@, repl@) == out@ + replace_all_seq(
                s@.skip(i as int),
                pat@,
                repl@,
            ),
        decreases s_len - i + 1,
    {
        let ghost rest = s@.skip(i as int);
        if is_match_at(s, pat, i, s_len, p_len) {
            out.append(repl);
            proof {
                assert(rest.subrange(0, pat@.len() as int) =~= s@.subrange(
                    i as int,
                    i + pat@.len() as int,
                ));
                assert(rest.skip(pat@.len() as int) =~= s@.skip(i + p_len));
                assert(replace_all_seq(rest, pat@, repl@) == repl@ + replace_all_seq(
                    s@.skip(i + p_len),
                    pat@,
                    repl@,
                ));
            }
            i = i + p_len;
        } else {
            let piece = s.substring_char(i, i + 1);
            out.append(piece);
            proof {
                assert(rest.subrange(0, pat@.len() as int) =~= s@.subrange(
                    i as int,
                    i + pat@.len() as int,
                ));
                assert(rest.subrange(0, pat@.len() as int) != pat@);
                assert(rest.skip(1) =~= s@.skip(i + 1));
                assert(seq![rest[0]] =~= s@.subrange(i as int, i + 1));
                assert(replace_all_seq(rest, pat@, repl@) == s@.subrange(i as int, i + 1)
                    + replace_all_seq(s@.skip(i + 1), pat@, repl@));
            }
            i = i + 1;
        }
    }
    let tail = s.substring_char(i, s_len);
    out.append(tail);
    proof {
        assert(replace_all_seq(s@.skip(i as int), pat@, repl@) == s@.skip(i as int));
        assert(tail@ =~= s@.skip(i as int));
    }
    out
}

/// The views of a sequence of owned lines.
pub open spec fn line_views(lines: Seq<String>) -> Seq<Seq<char>> {
    lines.map_values(|l: String| l@)
}

/// The text that writing each line followed by a newline produces.
pub open spec fn joined_lines(lines: Seq<Seq<char>>) -> Seq<char>
    decreases lines.len(),
{
    if lines.len() == 0 {
        Seq::empty()
    } else {
        lines[0] + seq!['\n'] + joined_lines(lines.skip(1))
    }
}

/// Concatenates the lines, terminating each with a newline, as rewriting
/// a patched file to disk line by line does.
pub fn join_lines(lines: &Vec<String>) -> (r: String)
    ensures
        r@ == joined_lines(line_views(lines@)),
{
    let mut out = String::new();
    let mut i: usize = 0;
    let n = lines.len();
    proof {
        assert(line_views(lines@).skip(0) =~= line_views(lines@));
        assert(out@ + joined_lines(line_views(lines@)) =~= joined_lines(line_views(lines@)));
    }
    while i < n
        invariant
            i <= n,
            n == lines@.len(),
            joined_lines(line_views(lines@)) == out@ + joined_lines(
                line_views(lines@).skip(i as int),
            ),
        decreases n - i,
    {
        let ghost rest = line_views(lines@).skip(i as int);
        proof {
            assert(rest.skip(1) =~= line_views(lines@).skip(i + 1));
            assert(rest[0] == lines@[i as int]@);
        }
        out.append(lines[i].as_str());
        out.append("\n");
        proof {
            assert("\n"@ =~= seq!['\n']) by {
                reveal_strlit("\n");
            }
        }
        i = i + 1;
    }
    proof {
        assert(line_views(lines@).skip(n as int) =~= Seq::<Seq<char>>::empty());
    }
    out
}

/// The final `/`-separated segment of a path: everything after the last
/// slash, or the whole text when no slash occurs.
pub open spec fn last_segment(s: Seq<char>) -> Seq<char>
    decreases s.len(),
{
    if s.len() == 0 {
        s
    } else if s.last() == '/' {
        Seq::empty()
    } else {
        last_segment(s.drop_last()).push(s.last())
    }
}

proof fn lemma_last_segment_suffix(s: Seq<char>, j: int)
    requires
        0 <= j <= s.len(),
        forall|k: int| j <= k < s.len() ==> s[k] != '/',
        j == 0 || s[j - 1] == '/',
    ensures
        last_segment(s) =~= s.skip(j),
    decreases s.len(),
{
    if s.len() == 0 {
    } else if s.last() == '/' {
        assert(j == s.len());
    } else {
        assert(j <= s.len() - 1);
        lemma_last_segment_suffix(s.drop_last(), j);
        assert(s.drop_last().skip(j) =~= s.skip(j).drop_last());
    }
}

/// The name a project takes from its working directory: the path's final
/// `/`-separated segment.
pub fn project_name_of(path: &str) -> (r: String)
    ensures
        r@ == last_segment(path@),
{
    let len = path.unicode_len();
    let mut i: usize = len;
    while i > 0 && path.get_char(i - 1) != '/'
        invariant
            i <= len,
            len == path@.len(),
            forall|k: int| i <= k < len ==> path@[k] != '/',
        decreases i,
    {
        i = i - 1;
    }
    let r = path.substring_char(i, len);
    proof {
        lemma_last_segment_suffix(path@, i as int);
    }
    r.to_owned()
}

/// The uppercase form of `s`, depending on the characters of `s` alone.
pub uninterp spec fn upper_of(s: Seq<char>) -> Seq<char>;

/// Relies on str::to_uppercase: the result is a function of the characters
/// alone, and an empty string stays empty.
#[verifier::external_body]
pub fn to_upper(s: &str) -> (r: String)
    ensures
        r@ == upper_of(s@),
        s@.len() == 0 ==> r@.len() == 0,
{
    s.to_uppercase()
}

} // verus!
