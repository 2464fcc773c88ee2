//! Splits a user-authored dependency manifest into the host-side and
//! guest-side declaration lists, keyed by the two section marker lines.

use vstd::prelude::*;
use vstd::string::*;
use crate::text::{contains_seq, contains_substring, line_views};

verus! {

/// The section marker that starts host-dependency collection.
pub open spec fn host_marker() -> Seq<char> {
    "Host"@
}

/// The section marker that ends host collection and starts guest collection.
pub open spec fn guest_marker() -> Seq<char> {
    "Guest"@
}

/// The well-known dependency declaration every guest list must carry.
pub open spec fn implicit_guest_dep() -> Seq<char> {
    "cid = \"0.7.0\""@
}

/// The two ordered dependency lists a manifest partitions into.
pub struct Packages {
    pub host: Vec<String>,
    pub guest: Vec<String>,
}

/// The host and guest lists collected from `lines` when the scan starts
/// with the given flags: a line containing the host marker turns host
/// collection on and is itself collected; a line containing the guest
/// marker (and not the host marker) turns guest collection on and is
/// skipped; every other line goes to the active list, host taking
/// priority.
pub open spec fn partition_rec(lines: Seq<Seq<char>>, ch: bool, cg: bool) -> (Seq<Seq<char>>, Seq<
    Seq<char>,
>)
    decreases lines.len(),
{
    if lines.len() == 0 {
        (Seq::empty(), Seq::empty())
    } else {
        let line = lines[0];
        let rest = lines.skip(1);
        if contains_seq(line, host_marker()) {
            let r = partition_rec(rest, true, cg);
            (seq![line] + r.0, r.1)
        } else if contains_seq(line, guest_marker()) {
            partition_rec(rest, false, true)
        } else {
            let r = partition_rec(rest, ch, cg);
            if ch {
                (seq![line] + r.0, r.1)
            } else if cg {
                (r.0, seq![line] + r.1)
            } else {
                r
            }
        }
    }
}

/// The partition of a whole manifest: the scan starts with both flags off,
/// and the guest list is extended with the implicit guest dependency when
/// it is not already present.
pub open spec fn partition_spec(lines: Seq<Seq<char>>) -> (Seq<Seq<char>>, Seq<Seq<char>>) {
    let r = partition_rec(lines, false, false);
    if r.1.contains(implicit_guest_dep()) {
        r
    } else {
        (r.0, r.1.push(implicit_guest_dep()))
    }
}

/// Partitions the lines of a dependency manifest into the host and guest
/// declaration lists.
pub fn partition_dependencies(lines: &Vec<String>) -> (r: Packages)
    ensures
        line_views(r.host@) == partition_spec(line_views(lines@)).0,
        line_views(r.guest@) == partition_spec(line_views(lines@)).1,
{
    let ghost views = line_views(lines@);
    let mut host: Vec<String> = Vec::new();
    let mut guest: Vec<String> = Vec::new();
    let mut ch: bool = false;
    let mut cg: bool = false;
    let mut i: usize = 0;
    let n = lines.len();
    proof {
        assert(views.skip(0) =~= views);
        assert(line_views(host@) =~= Seq::<Seq<char>>::empty());
        assert(line_views(guest@) =~= Seq::<Seq<char>>::empty());
    }
    while i < n
        invariant
            i <= n,
            n == lines@.len(),
            views == line_views(lines@),
            partition_rec(views, false, false).0 =~= line_views(host@) + partition_rec(
                views.skip(i as int),
                ch,
                cg,
            ).0,
            partition_rec(views, false, false).1 =~= line_views(guest@) + partition_rec(
                views.skip(i as int),
                ch,
                cg,
            ).1,
        decreases n - i,
    {
        let ghost rest = views.skip(i as int);
        proof {
            assert(rest.skip(1) =~= views.skip(i + 1));
            assert(rest[0] == lines@[i as int]@);
        }
        let line = &lines[i];
        if contains_substring(line.as_str(), "Host") {
            ch = true;
            let ghost old_host = host@;
            host.push(line.clone());
            proof {
                assert(line_views(host@) =~= line_views(old_host).push(lines@[i as int]@));
            }
        } else if contains_substring(line.as_str(), "Guest") {
            ch = false;
            cg = true;
        } else {
            if ch {
                let ghost old_host = host@;
                host.push(line.clone());
                proof {
                    assert(line_views(host@) =~= line_views(old_host).push(lines@[i as int]@));
                }
            } else if cg {
                let ghost old_guest = guest@;
                guest.push(line.clone());
                proof {
                    assert(line_views(guest@) =~= line_views(old_guest).push(lines@[i as int]@));
                }
            }
        }
        i = i + 1;
    }
    proof {
        assert(views.skip(n as int) =~= Seq::<Seq<char>>::empty());
    }
    let dep = String::from_str("cid = \"0.7.0\"");
    let mut found: bool = false;
    let mut k: usize = 0;
    let g_len = guest.len();
    while k < g_len
        invariant
            k <= g_len,
            g_len == guest@.len(),
            dep@ == implicit_guest_dep(),
            found == exists|t: int|
                0 <= t < k && line_views(guest@)[t] == implicit_guest_dep(),
        decreases g_len - k,
    {
        proof {
            assert(line_views(guest@)[k as int] == guest@[k as int]@);
        }
        if guest[k] == dep {
            found = true;
        }
        k = k + 1;
    }
    proof {
        assert(found == line_views(guest@).contains(implicit_guest_dep()));
    }
    if !found {
        let ghost old_guest = guest@;
        guest.push(dep);
        proof {
            assert(line_views(guest@) =~= line_views(old_guest).push(implicit_guest_dep()));
        }
    }
    Packages { host, guest }
}

proof fn lemma_partition_idle(lines: Seq<Seq<char>>, m: int)
    requires
        0 <= m <= lines.len(),
        forall|k: int|
            0 <= k < m ==> !contains_seq(lines[k], host_marker()) && !contains_seq(
                lines[k],
                guest_marker(),
            ),
    ensures
        partition_rec(lines, false, false).0 =~= partition_rec(lines.skip(m), false, false).0,
        partition_rec(lines, false, false).1 =~= partition_rec(lines.skip(m), false, false).1,
    decreases m,
{
    if m > 0 {
        lemma_partition_idle(lines.skip(1), m - 1);
        assert(lines.skip(1).skip(m - 1) =~= lines.skip(m));
    } else {
        assert(lines.skip(0) =~= lines);
    }
}

proof fn lemma_partition_collecting_host(lines: Seq<Seq<char>>, m: int)
    requires
        0 <= m <= lines.len(),
        forall|k: int|
            0 <= k < m ==> !contains_seq(lines[k], host_marker()) && !contains_seq(
                lines[k],
                guest_marker(),
            ),
    ensures
        partition_rec(lines, true, false).0 =~= lines.take(m) + partition_rec(
            lines.skip(m),
            true,
            false,
        ).0,
        partition_rec(lines, true, false).1 =~= partition_rec(lines.skip(m), true, false).1,
    decreases m,
{
    if m == 0 {
        assert(lines.skip(0) =~= lines);
        assert(lines.take(0) + partition_rec(lines, true, false).0 =~= partition_rec(
            lines,
            true,
            false,
        ).0);
    } else {
        lemma_partition_collecting_host(lines.skip(1), m - 1);
        assert(lines.skip(1).skip(m - 1) =~= lines.skip(m));
        assert(lines.take(m) =~= seq![lines[0]] + lines.skip(1).take(m - 1));
    }
}

proof fn lemma_partition_collecting_guest(lines: Seq<Seq<char>>)
    requires
        forall|k: int|
            0 <= k < lines.len() ==> !contains_seq(lines[k], host_marker()) && !contains_seq(
                lines[k],
                guest_marker(),
            ),
    ensures
        partition_rec(lines, false, true).0 =~= Seq::<Seq<char>>::empty(),
        partition_rec(lines, false, true).1 =~= lines,
    decreases lines.len(),
{
    if lines.len() > 0 {
        lemma_partition_collecting_guest(lines.skip(1));
        assert(lines =~= seq![lines[0]] + lines.skip(1));
    }
}

/// For a manifest without either section marker, the partition's host list
/// is empty and its guest list holds only the implicit guest dependency.
pub proof fn lemma_partition_lacking_markers(lines: Seq<Seq<char>>)
    requires
        forall|k: int|
            0 <= k < lines.len() ==> !contains_seq(lines[k], host_marker()) && !contains_seq(
                lines[k],
                guest_marker(),
            ),
    ensures
        partition_spec(lines).0 =~= Seq::<Seq<char>>::empty(),
        partition_spec(lines).1 =~= seq![implicit_guest_dep()],
{
    lemma_partition_idle(lines, lines.len() as int);
    assert(lines.skip(lines.len() as int) =~= Seq::<Seq<char>>::empty());
}

/// For a manifest whose two marker lines stand in Host-then-Guest order,
/// the host list is exactly the lines from the host marker (inclusive) to
/// the guest marker (exclusive), and the guest list is all lines after the
/// guest marker, extended with the implicit guest dependency when it is
/// not already among them.
pub proof fn lemma_partition_host_then_guest(lines: Seq<Seq<char>>, h: int, g: int)
    requires
        0 <= h < g < lines.len(),
        contains_seq(lines[h], host_marker()),
        contains_seq(lines[g], guest_marker()),
        !contains_seq(lines[g], host_marker()),
        forall|k: int|
            0 <= k < lines.len() && k != h && k != g ==> !contains_seq(lines[k], host_marker())
                && !contains_seq(lines[k], guest_marker()),
    ensures
        partition_spec(lines).0 =~= lines.subrange(h, g),
        partition_spec(lines).1 =~= (if lines.skip(g + 1).contains(implicit_guest_dep()) {
            lines.skip(g + 1)
        } else {
            lines.skip(g + 1).push(implicit_guest_dep())
        }),
{
    lemma_partition_idle(lines, h);
    let at_h = lines.skip(h);
    assert(at_h[0] == lines[h]);
    assert(at_h.skip(1) =~= lines.skip(h + 1));
    lemma_partition_collecting_host(lines.skip(h + 1), g - h - 1);
    assert(lines.skip(h + 1).skip(g - h - 1) =~= lines.skip(g));
    let at_g = lines.skip(g);
    assert(at_g[0] == lines[g]);
    assert(at_g.skip(1) =~= lines.skip(g + 1));
    lemma_partition_collecting_guest(lines.skip(g + 1));
    assert(partition_rec(lines, false, false).0 =~= seq![lines[h]] + lines.skip(h + 1).take(
        g - h - 1,
    ) + Seq::<Seq<char>>::empty());
    assert(seq![lines[h]] + lines.skip(h + 1).take(g - h - 1) + Seq::<Seq<char>>::empty()
        =~= lines.subrange(h, g));
    assert(partition_rec(lines, false, false).1 =~= lines.skip(g + 1));
}

} // verus!
