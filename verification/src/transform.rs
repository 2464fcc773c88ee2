//! The block-replacement transformer: rewriting the body of a designated
//! entry point with a fixed statement sequence, skipping the original body
//! by a balanced brace-depth scan that ignores braces inside string and
//! comment literals, dropping marked lines, and inserting supplementary
//! declarations after marked lines.

use vstd::prelude::*;
use vstd::string::*;
use crate::text::{contains_seq, contains_substring, line_views};

verus! {

/// Supplementary declarations emitted after any line that contains every
/// one of the rule's markers.
pub struct InsertRule {
    pub markers: Vec<String>,
    pub lines: Vec<String>,
}

/// What one run of the transformer does: when a line containing `trigger`
/// is seen, the `replacement` lines are emitted after it and the original
/// block body is skipped; lines containing one of `drops` are discarded;
/// each of `inserts` adds its lines after the lines it matches.
pub struct TransformConfig {
    pub trigger: String,
    pub replacement: Vec<String>,
    pub inserts: Vec<InsertRule>,
    pub drops: Vec<String>,
}

/// Where the delimiter scan stands in the source text: in plain code,
/// inside a string literal, or inside a block comment.
#[derive(Clone, Copy, Debug)]
pub enum LexState {
    Code,
    Str,
    Comment,
}

/// One line of the delimiter scan, from character `i` on: only braces in
/// plain code count towards the depth `d`.  A `//` in code ends the line;
/// a `/*` opens a block comment that `*/` closes (nested block comments
/// are not tracked); a `"` opens a string literal in which a backslash
/// escapes the next character.  String and comment state carries over to
/// the next line.
pub open spec fn scan_from(line: Seq<char>, i: int, st: LexState, d: int) -> (LexState, int)
    decreases line.len() - i,
{
    if i < 0 || i >= line.len() {
        (st, d)
    } else {
        let c = line[i];
        match st {
            LexState::Code => {
                if c == '/' && i + 1 < line.len() && line[i + 1] == '/' {
                    (LexState::Code, d)
                } else if c == '/' && i + 1 < line.len() && line[i + 1] == '*' {
                    scan_from(line, i + 2, LexState::Comment, d)
                } else if c == '"' {
                    scan_from(line, i + 1, LexState::Str, d)
                } else if c == '{' {
                    scan_from(line, i + 1, LexState::Code, d + 1)
                } else if c == '}' {
                    scan_from(line, i + 1, LexState::Code, d - 1)
                } else {
                    scan_from(line, i + 1, LexState::Code, d)
                }
            },
            LexState::Str => {
                if c == '\\' {
                    if i + 1 < line.len() {
                        scan_from(line, i + 2, LexState::Str, d)
                    } else {
                        (LexState::Str, d)
                    }
                } else if c == '"' {
                    scan_from(line, i + 1, LexState::Code, d)
                } else {
                    scan_from(line, i + 1, LexState::Str, d)
                }
            },
            LexState::Comment => {
                if c == '*' && i + 1 < line.len() && line[i + 1] == '/' {
                    scan_from(line, i + 2, LexState::Code, d)
                } else {
                    scan_from(line, i + 1, LexState::Comment, d)
                }
            },
        }
    }
}

/// The delimiter scan of one whole line entered in state `st`: the state
/// the next line starts in, and the line's contribution to the brace
/// depth, counting only braces that stand in plain code.
pub open spec fn line_scan(line: Seq<char>, st: LexState) -> (LexState, int) {
    scan_from(line, 0, st, 0)
}

/// Runs the delimiter scan over one line, returning the outgoing state
/// and the counts of opening and closing braces found in plain code.
pub fn scan_line(line: &str, st: LexState) -> (r: (LexState, usize, usize))
    ensures
        r.0 == line_scan(line@, st).0,
        r.1 as int - r.2 as int == line_scan(line@, st).1,
{
    let len = line.unicode_len();
    let mut i: usize = 0;
    let mut cur = st;
    let mut opens: usize = 0;
    let mut closes: usize = 0;
    while i < len
        invariant
            i <= len,
            len == line@.len(),
            opens <= i,
            closes <= i,
            scan_from(line@, 0, st, 0) == scan_from(
                line@,
                i as int,
                cur,
                opens as int - closes as int,
            ),
        decreases len - i,
    {
        let ghost i0 = i as int;
        let ghost cur0 = cur;
        let ghost acc0 = opens as int - closes as int;
        let c = line.get_char(i);
        match cur {
            LexState::Code => {
                if c == '/' && i + 1 < len && line.get_char(i + 1) == '/' {
                    proof {
                        assert(scan_from(line@, i0, cur0, acc0) == (LexState::Code, acc0));
                    }
                    return (LexState::Code, opens, closes);
                } else if c == '/' && i + 1 < len && line.get_char(i + 1) == '*' {
                    cur = LexState::Comment;
                    i = i + 2;
                } else if c == '"' {
                    cur = LexState::Str;
                    i = i + 1;
                } else if c == '{' {
                    opens = opens + 1;
                    i = i + 1;
                } else if c == '}' {
                    closes = closes + 1;
                    i = i + 1;
                } else {
                    i = i + 1;
                }
            },
            LexState::Str => {
                if c == '\\' {
                    if i + 1 < len {
                        i = i + 2;
                    } else {
                        proof {
                            assert(scan_from(line@, i0, cur0, acc0) == (LexState::Str, acc0));
                        }
                        return (LexState::Str, opens, closes);
                    }
                } else if c == '"' {
                    cur = LexState::Code;
                    i = i + 1;
                } else {
                    i = i + 1;
                }
            },
            LexState::Comment => {
                if c == '*' && i + 1 < len && line.get_char(i + 1) == '/' {
                    cur = LexState::Code;
                    i = i + 2;
                } else {
                    i = i + 1;
                }
            },
        }
        proof {
            assert(scan_from(line@, i0, cur0, acc0) == scan_from(
                line@,
                i as int,
                cur,
                opens as int - closes as int,
            ));
        }
    }
    (cur, opens, closes)
}

/// A line matches an insertion rule when it contains every marker.
pub open spec fn rule_matches(line: Seq<char>, rule: InsertRule) -> bool {
    forall|k: int| 0 <= k < rule.markers@.len() ==> contains_seq(line, rule.markers@[k]@)
}

/// The supplementary lines emitted after `line`: the lines of each
/// matching rule, in rule order.
pub open spec fn insertions_for(line: Seq<char>, rules: Seq<InsertRule>) -> Seq<Seq<char>>
    decreases rules.len(),
{
    if rules.len() == 0 {
        Seq::empty()
    } else {
        (if rule_matches(line, rules[0]) {
            line_views(rules[0].lines@)
        } else {
            Seq::<Seq<char>>::empty()
        }) + insertions_for(line, rules.skip(1))
    }
}

/// A line is discarded when it contains one of the drop markers.
pub open spec fn is_dropped(line: Seq<char>, drops: Seq<String>) -> bool {
    exists|k: int| 0 <= k < drops.len() && contains_seq(line, drops[k]@)
}

/// The transformer's output for the remaining `lines`.  While skipping a
/// replaced block, `st` and `depth` carry the delimiter scan: `depth` is
/// the number of still-unclosed real braces, and the line that brings it
/// to zero is the block's last and is discarded with it.  Outside a
/// block, a trigger line is emitted followed by the replacement and its
/// own scan opens the block; a dropped line vanishes; any other line is
/// emitted followed by its insertions.
pub open spec fn transform_rec(
    lines: Seq<Seq<char>>,
    cfg: TransformConfig,
    skipping: bool,
    st: LexState,
    depth: int,
) -> Seq<Seq<char>>
    decreases lines.len(),
{
    if lines.len() == 0 {
        Seq::empty()
    } else {
        let line = lines[0];
        let rest = lines.skip(1);
        if skipping {
            let scan = line_scan(line, st);
            let d = depth + scan.1;
            if d <= 0 {
                transform_rec(rest, cfg, false, LexState::Code, 0)
            } else {
                transform_rec(rest, cfg, true, scan.0, d)
            }
        } else if contains_seq(line, cfg.trigger@) {
            let scan = line_scan(line, LexState::Code);
            seq![line] + line_views(cfg.replacement@) + (if scan.1 <= 0 {
                transform_rec(rest, cfg, false, LexState::Code, 0)
            } else {
                transform_rec(rest, cfg, true, scan.0, scan.1)
            })
        } else if is_dropped(line, cfg.drops@) {
            transform_rec(rest, cfg, false, LexState::Code, 0)
        } else {
            seq![line] + insertions_for(line, cfg.inserts@) + transform_rec(
                rest,
                cfg,
                false,
                LexState::Code,
                0,
            )
        }
    }
}

/// The transformer's output for a whole file.
pub open spec fn transform_spec(lines: Seq<Seq<char>>, cfg: TransformConfig) -> Seq<Seq<char>> {
    transform_rec(lines, cfg, false, LexState::Code, 0)
}

proof fn lemma_line_views_concat(a: Seq<String>, b: Seq<String>)
    ensures
        line_views(a + b) =~= line_views(a) + line_views(b),
{
}

/// Appends clones of all of `src` to `out`.
fn append_lines(out: Vec<String>, src: &Vec<String>) -> (r: Vec<String>)
    ensures
        r@ == out@ + src@,
{
    let mut out = out;
    let ghost orig = out@;
    let n = src.len();
    let mut i: usize = 0;
    proof {
        assert(orig + src@.subrange(0, 0) =~= orig);
    }
    while i < n
        invariant
            i <= n,
            n == src@.len(),
            out@ == orig + src@.subrange(0, i as int),
        decreases n - i,
    {
        out.push(src[i].clone());
        proof {
            assert(orig + src@.subrange(0, i + 1) =~= (orig + src@.subrange(0, i as int)).push(
                src@[i as int],
            ));
        }
        i = i + 1;
    }
    proof {
        assert(src@.subrange(0, n as int) =~= src@);
    }
    out
}

/// Whether `line` contains one of the drop markers.
fn line_is_dropped(line: &str, drops: &Vec<String>) -> (r: bool)
    ensures
        r == is_dropped(line@, drops@),
{
    let n = drops.len();
    let mut k: usize = 0;
    while k < n
        invariant
            k <= n,
            n == drops@.len(),
            forall|t: int| 0 <= t < k ==> !contains_seq(line@, drops@[t]@),
        decreases n - k,
    {
        if contains_substring(line, drops[k].as_str()) {
            return true;
        }
        k = k + 1;
    }
    false
}

/// Whether `line` contains every marker of `rule`.
fn line_matches_rule(line: &str, rule: &InsertRule) -> (r: bool)
    ensures
        r == rule_matches(line@, *rule),
{
    let n = rule.markers.len();
    let mut k: usize = 0;
    while k < n
        invariant
            k <= n,
            n == rule.markers@.len(),
            forall|t: int| 0 <= t < k ==> contains_seq(line@, rule.markers@[t]@),
        decreases n - k,
    {
        if !contains_substring(line, rule.markers[k].as_str()) {
            return false;
        }
        k = k + 1;
    }
    true
}

/// Appends to `out` the insertion lines every matching rule contributes
/// for `line`.
fn apply_insertions(out: Vec<String>, line: &str, rules: &Vec<InsertRule>) -> (r: Vec<String>)
    ensures
        line_views(r@) =~= line_views(out@) + insertions_for(line@, rules@),
{
    let mut out = out;
    let ghost orig = out@;
    let n = rules.len();
    let mut k: usize = 0;
    proof {
        assert(rules@.skip(0) =~= rules@);
    }
    while k < n
        invariant
            k <= n,
            n == rules@.len(),
            line_views(orig) + insertions_for(line@, rules@) =~= line_views(out@)
                + insertions_for(line@, rules@.skip(k as int)),
        decreases n - k,
    {
        let ghost rest = rules@.skip(k as int);
        proof {
            assert(rest[0] == rules@[k as int]);
            assert(rest.skip(1) =~= rules@.skip(k + 1));
        }
        if line_matches_rule(line, &rules[k]) {
            let ghost before = out@;
            out = append_lines(out, &rules[k].lines);
            proof {
                lemma_line_views_concat(before, rules@[k as int].lines@);
                assert(line_views(out@) + insertions_for(line@, rules@.skip(k + 1)) =~= line_views(
                    before,
                ) + insertions_for(line@, rest));
            }
        } else {
            proof {
                assert(line_views(out@) + insertions_for(line@, rules@.skip(k + 1)) =~= line_views(
                    out@,
                ) + insertions_for(line@, rest));
            }
        }
        k = k + 1;
    }
    proof {
        assert(insertions_for(line@, rules@.skip(n as int)) =~= Seq::<Seq<char>>::empty());
        assert(line_views(out@) + Seq::<Seq<char>>::empty() =~= line_views(out@));
    }
    out
}

/// A line the transformer copies bare: it holds no trigger, no drop
/// marker, and matches no insertion rule.
pub open spec fn plain_line(line: Seq<char>, cfg: TransformConfig) -> bool {
    &&& !contains_seq(line, cfg.trigger@)
    &&& !is_dropped(line, cfg.drops@)
    &&& forall|k: int| 0 <= k < cfg.inserts@.len() ==> !rule_matches(line, cfg.inserts@[k])
}

proof fn lemma_insertions_empty(line: Seq<char>, rules: Seq<InsertRule>)
    requires
        forall|k: int| 0 <= k < rules.len() ==> !rule_matches(line, rules[k]),
    ensures
        insertions_for(line, rules) =~= Seq::<Seq<char>>::empty(),
    decreases rules.len(),
{
    if rules.len() > 0 {
        lemma_insertions_empty(line, rules.skip(1));
    }
}

proof fn lemma_transform_plain_run(lines: Seq<Seq<char>>, m: int, cfg: TransformConfig)
    requires
        0 <= m <= lines.len(),
        forall|k: int| 0 <= k < m ==> plain_line(lines[k], cfg),
    ensures
        transform_rec(lines, cfg, false, LexState::Code, 0) =~= lines.take(m) + transform_rec(
            lines.skip(m),
            cfg,
            false,
            LexState::Code,
            0,
        ),
    decreases m,
{
    if m == 0 {
        assert(lines.skip(0) =~= lines);
        assert(lines.take(0) + transform_rec(lines, cfg, false, LexState::Code, 0)
            =~= transform_rec(lines, cfg, false, LexState::Code, 0));
    } else {
        lemma_insertions_empty(lines[0], cfg.inserts@);
        lemma_transform_plain_run(lines.skip(1), m - 1, cfg);
        assert(lines.skip(1).skip(m - 1) =~= lines.skip(m));
        assert(lines.take(m) =~= seq![lines[0]] + lines.skip(1).take(m - 1));
        assert(transform_rec(lines, cfg, false, LexState::Code, 0) =~= seq![lines[0]]
            + transform_rec(lines.skip(1), cfg, false, LexState::Code, 0));
    }
}

/// When an entry file is plain lines around a trigger line that opens one
/// real brace, a body line whose scan is brace-neutral, and the line that
/// closes the block, the transformer's output is the plain lines before,
/// the trigger line, the whole replacement block, and the plain lines
/// after: the body and its closing line are gone.
pub proof fn lemma_transform_entry_block(
    pre: Seq<Seq<char>>,
    t: Seq<char>,
    b: Seq<char>,
    c: Seq<char>,
    post: Seq<Seq<char>>,
    cfg: TransformConfig,
)
    requires
        forall|k: int| 0 <= k < pre.len() ==> plain_line(pre[k], cfg),
        forall|k: int| 0 <= k < post.len() ==> plain_line(post[k], cfg),
        contains_seq(t, cfg.trigger@),
        line_scan(t, LexState::Code).1 == 1,
        line_scan(b, line_scan(t, LexState::Code).0).1 == 0,
        line_scan(c, line_scan(b, line_scan(t, LexState::Code).0).0).1 == -1,
    ensures
        transform_spec(pre + seq![t, b, c] + post, cfg) =~= pre + seq![t] + line_views(
            cfg.replacement@,
        ) + post,
{
    let lines = pre + seq![t, b, c] + post;
    let p = pre.len() as int;
    lemma_transform_plain_run(lines, p, cfg);
    assert(lines.take(p) =~= pre);
    let mid = seq![t, b, c] + post;
    assert(lines.skip(p) =~= mid);
    let s1 = seq![b, c] + post;
    let s2 = seq![c] + post;
    assert(mid.skip(1) =~= s1);
    assert(s1.skip(1) =~= s2);
    assert(s2.skip(1) =~= post);
    assert(mid[0] == t && s1[0] == b && s2[0] == c);
    let st1 = line_scan(t, LexState::Code).0;
    let st2 = line_scan(b, st1).0;
    assert(transform_rec(mid, cfg, false, LexState::Code, 0) == seq![t] + line_views(
        cfg.replacement@,
    ) + transform_rec(s1, cfg, true, st1, 1));
    assert(transform_rec(s1, cfg, true, st1, 1) == transform_rec(s2, cfg, true, st2, 1));
    assert(transform_rec(s2, cfg, true, st2, 1) == transform_rec(
        post,
        cfg,
        false,
        LexState::Code,
        0,
    ));
    lemma_transform_plain_run(post, post.len() as int, cfg);
    assert(post.skip(post.len() as int) =~= Seq::<Seq<char>>::empty());
    assert(transform_rec(post, cfg, false, LexState::Code, 0) =~= post.take(post.len() as int)
        + Seq::<Seq<char>>::empty());
    assert(post.take(post.len() as int) =~= post);
}

/// Streams the file's lines through the block-replacement transformer.
pub fn transform_lines(lines: &Vec<String>, cfg: &TransformConfig) -> (r: Vec<String>)
    ensures
        line_views(r@) == transform_spec(line_views(lines@), *cfg),
{
    let ghost views = line_views(lines@);
    let n = lines.len();
    let mut out: Vec<String> = Vec::new();
    let mut skipping: bool = false;
    let mut lex = LexState::Code;
    let mut depth: u128 = 0;
    let mut i: usize = 0;
    proof {
        assert(views.skip(0) =~= views);
        assert(line_views(out@) =~= Seq::<Seq<char>>::empty());
        assert(line_views(out@) + transform_rec(views, *cfg, false, LexState::Code, 0)
            =~= transform_rec(views, *cfg, false, LexState::Code, 0));
    }
    while i < n
        invariant
            i <= n,
            n == lines@.len(),
            views == line_views(lines@),
            skipping ==> depth >= 1,
            !skipping ==> depth == 0 && lex is Code,
            depth <= (i as int) * (usize::MAX as int),
            transform_spec(views, *cfg) =~= line_views(out@) + transform_rec(
                views.skip(i as int),
                *cfg,
                skipping,
                lex,
                depth as int,
            ),
        decreases n - i,
    {
        let ghost rest = views.skip(i as int);
        proof {
            assert(rest[0] == lines@[i as int]@);
            assert(rest.skip(1) =~= views.skip(i + 1));
            assert((i as int) * (usize::MAX as int) + (usize::MAX as int) == ((i + 1) as int) * (
            usize::MAX as int)) by (nonlinear_arith);
            assert(((i + 1) as int) * (usize::MAX as int) <= (n as int) * (usize::MAX as int)) by (
            nonlinear_arith)
                requires
                    i + 1 <= n,
            ;
            assert((n as int) * (usize::MAX as int) <= u128::MAX) by (nonlinear_arith)
                requires
                    n <= usize::MAX,
            ;
        }
        let line = &lines[i];
        if skipping {
            let ghost st_old = lex;
            let ghost d_old = depth as int;
            let scan = scan_line(line.as_str(), lex);
            let opens = scan.1;
            let closes = scan.2;
            if (closes as u128) >= depth + (opens as u128) {
                skipping = false;
                depth = 0;
                lex = LexState::Code;
            } else {
                depth = depth + (opens as u128) - (closes as u128);
                lex = scan.0;
            }
            proof {
                assert(transform_rec(rest, *cfg, true, st_old, d_old) == transform_rec(
                    rest.skip(1),
                    *cfg,
                    skipping,
                    lex,
                    depth as int,
                ));
            }
        } else {
            let is_trigger = contains_substring(line.as_str(), cfg.trigger.as_str());
            if is_trigger {
                let ghost before = out@;
                out.push(line.clone());
                let ghost pushed = out@;
                out = append_lines(out, &cfg.replacement);
                let scan = scan_line(line.as_str(), LexState::Code);
                if scan.1 > scan.2 {
                    skipping = true;
                    depth = (scan.1 as u128) - (scan.2 as u128);
                    lex = scan.0;
                }
                proof {
                    assert(line_views(pushed) =~= line_views(before).push(rest[0]));
                    lemma_line_views_concat(pushed, cfg.replacement@);
                    assert(transform_rec(rest, *cfg, false, LexState::Code, 0) == seq![rest[0]]
                        + line_views(cfg.replacement@) + transform_rec(
                        rest.skip(1),
                        *cfg,
                        skipping,
                        lex,
                        depth as int,
                    ));
                    assert(line_views(out@) + transform_rec(
                        views.skip(i + 1),
                        *cfg,
                        skipping,
                        lex,
                        depth as int,
                    ) =~= line_views(before) + transform_rec(rest, *cfg, false, LexState::Code, 0));
                }
            } else if line_is_dropped(line.as_str(), &cfg.drops) {
                proof {
                    assert(transform_rec(rest, *cfg, false, LexState::Code, 0) == transform_rec(
                        rest.skip(1),
                        *cfg,
                        false,
                        LexState::Code,
                        0,
                    ));
                }
            } else {
                let ghost before = out@;
                out.push(line.clone());
                let ghost pushed = out@;
                out = apply_insertions(out, line.as_str(), &cfg.inserts);
                proof {
                    assert(line_views(pushed) =~= line_views(before).push(rest[0]));
                    assert(transform_rec(rest, *cfg, false, LexState::Code, 0) == seq![rest[0]]
                        + insertions_for(rest[0], cfg.inserts@) + transform_rec(
                        rest.skip(1),
                        *cfg,
                        false,
                        LexState::Code,
                        0,
                    ));
                    assert(line_views(out@) + transform_rec(
                        views.skip(i + 1),
                        *cfg,
                        false,
                        LexState::Code,
                        0,
                    ) =~= line_views(before) + transform_rec(rest, *cfg, false, LexState::Code, 0));
                }
            }
        }
        i = i + 1;
    }
    proof {
        assert(views.skip(n as int) =~= Seq::<Seq<char>>::empty());
    }
    out
}

} // verus!
