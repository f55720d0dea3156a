//! The worktrees that `git worktree list --porcelain` reports.
use vstd::prelude::*;

use crate::text::{chars_of, is_first, lines, strip_cr, strip_prefix, strip_prefix_spec, views};

verus! {

/// A linked worktree: where it is checked out, and its branch (or
/// `detached HEAD`).
#[derive(Debug, PartialEq, Eq)]
pub struct Worktree {
    pub path: String,
    pub branch: String,
}

impl Worktree {
    pub open spec fn model(&self) -> (Seq<char>, Seq<char>) {
        (self.path@, self.branch@)
    }
}

/// What the scan of the listing holds between two lines: the entries
/// found, and the path and branch of the block being read.
pub type Scan = (Seq<(Seq<char>, Seq<char>)>, Option<Seq<char>>, Option<Seq<char>>);

/// The label of a worktree whose `branch` line is missing.
pub open spec fn detached_label() -> Seq<char> {
    "detached HEAD"@
}

/// A branch as the listing names it, with `refs/heads/` taken off the front.
pub open spec fn short_branch(v: Seq<char>) -> Seq<char> {
    match strip_prefix_spec(v, "refs/heads/"@) {
        Some(b) => b,
        None => v,
    }
}

/// Reading one line of the listing: a `worktree ` line sets the path, a
/// `branch ` line sets the branch, and an empty line ends a block that has a
/// path, which then becomes an entry.
pub open spec fn scan_line(st: Scan, line: Seq<char>) -> Scan {
    match strip_prefix_spec(line, "worktree "@) {
        Some(p) => (st.0, Some(p), st.2),
        None => match strip_prefix_spec(line, "branch "@) {
            Some(v) => (st.0, st.1, Some(short_branch(v))),
            None => if line.len() == 0 {
                match st.1 {
                    Some(p) => {
                        let b = match st.2 {
                            Some(b) => b,
                            None => detached_label(),
                        };
                        (st.0.push((p, b)), None, None)
                    },
                    None => st,
                }
            } else {
                st
            },
        },
    }
}

/// Reading lines in order.
pub open spec fn scan(ls: Seq<Seq<char>>, st: Scan) -> Scan
    decreases ls.len(),
{
    if ls.len() == 0 {
        st
    } else {
        scan(ls.drop_first(), scan_line(st, ls[0]))
    }
}

pub open spec fn empty_scan() -> Scan {
    (seq![], None, None)
}

/// The message when the listing holds no worktree.
pub open spec fn no_worktrees_message() -> Seq<char> {
    "no worktrees found in the current repository"@
}

/// The worktrees of a listing: its lines read in order, then one empty line
/// more to close the last block; an error when none was found.
pub open spec fn worktrees_of(output: Seq<char>) -> Result<Seq<(Seq<char>, Seq<char>)>, Seq<char>> {
    let st = scan_line(scan(lines(output), empty_scan()), seq![]);
    if st.0.len() == 0 {
        Err(no_worktrees_message())
    } else {
        Ok(st.0)
    }
}

pub open spec fn opt_view(o: Option<String>) -> Option<Seq<char>> {
    match o {
        Some(s) => Some(s@),
        None => None,
    }
}

pub open spec fn models(entries: Seq<Worktree>) -> Seq<(Seq<char>, Seq<char>)> {
    entries.map_values(|w: Worktree| w.model())
}

pub open spec fn scan_of(entries: Seq<Worktree>, path: Option<String>, branch: Option<String>) -> Scan {
    (models(entries), opt_view(path), opt_view(branch))
}

fn read_line(
    entries: &mut Vec<Worktree>,
    path: &mut Option<String>,
    branch: &mut Option<String>,
    line: &str,
)
    ensures
        scan_of(final(entries)@, *final(path), *final(branch)) == scan_line(
            scan_of(old(entries)@, *old(path), *old(branch)),
            line@,
        ),
{
    match strip_prefix(line, "worktree ") {
        Some(p) => {
            *path = Some(p);
            return ;
        },
        None => {},
    }
    match strip_prefix(line, "branch ") {
        Some(v) => {
            let b = match strip_prefix(v.as_str(), "refs/heads/") {
                Some(b) => b,
                None => v,
            };
            *branch = Some(b);
            return ;
        },
        None => {},
    }
    if line.unicode_len() == 0 {
        match path.take() {
            Some(p) => {
                let b = match branch.take() {
                    Some(b) => b,
                    None => String::from_str("detached HEAD"),
                };
                let ghost before = entries@;
                entries.push(Worktree { path: p, branch: b });
                assert(models(entries@) =~= models(before).push((p@, b@)));
            },
            None => {},
        }
    }
}

proof fn lemma_scan_step(ls: Seq<Seq<char>>, line: Seq<char>, st: Scan)
    ensures
        scan(seq![line] + ls, st) == scan(ls, scan_line(st, line)),
{
    assert((seq![line] + ls).drop_first() =~= ls);
}

/// Reads the worktrees from the output of `git worktree list --porcelain`.
pub fn parse_worktrees(output: &str) -> (r: Result<Vec<Worktree>, String>)
    ensures
        match r {
            Ok(v) => worktrees_of(output@) == Ok::<Seq<(Seq<char>, Seq<char>)>, Seq<char>>(models(v@)),
            Err(m) => worktrees_of(output@) == Err::<Seq<(Seq<char>, Seq<char>)>, Seq<char>>(m@),
        },
{
    let v = chars_of(output);
    let n = v.len();
    let mut entries: Vec<Worktree> = Vec::new();
    let mut path: Option<String> = None;
    let mut branch: Option<String> = None;
    let mut pos: usize = 0;
    proof {
        assert(output@.skip(0) =~= output@);
        assert(models(entries@) =~= seq![]);
    }
    while pos < n
        invariant
            v@ == output@,
            n == v@.len(),
            pos <= n,
            scan(lines(output@), empty_scan()) == scan(
                lines(output@.skip(pos as int)),
                scan_of(entries@, path, branch),
            ),
        decreases n - pos,
    {
        let mut k = pos;
        while k < n && v[k] != '\n'
            invariant
                v@ == output@,
                n == v@.len(),
                pos <= k <= n,
                forall|j: int| pos <= j < k ==> v@[j] != '\n',
            decreases n - k,
        {
            k = k + 1;
        }
        let ghost rest = output@.skip(pos as int);
        let mut end = k;
        let next: usize;
        if k < n {
            if end > pos && v[end - 1] == '\r' {
                end = end - 1;
            }
            next = k + 1;
        } else {
            next = n;
        }
        let line = output.substring_char(pos, end);
        proof {
            if k < n {
                let kk = (k - pos) as int;
                assert(is_first(rest, '\n', kk));
                let c = choose|j: int| is_first(rest, '\n', j);
                if c < kk {
                    assert(rest[c] == v@[pos + c]);
                }
                if c > kk {
                    assert(rest[kk] == '\n');
                }
                assert(c == kk);
                assert(rest.take(kk) =~= output@.subrange(pos as int, k as int));
                assert(strip_cr(rest.take(kk)) =~= line@);
                assert(rest.skip(kk + 1) =~= output@.skip(next as int));
                assert(lines(rest) == seq![line@] + lines(output@.skip(next as int)));
            } else {
                assert(!exists|j: int| is_first(rest, '\n', j)) by {
                    if exists|j: int| is_first(rest, '\n', j) {
                        let j = choose|j: int| is_first(rest, '\n', j);
                        assert(rest[j] == v@[pos + j]);
                    }
                }
                assert(rest =~= line@);
                assert(output@.skip(next as int) =~= seq![]);
                assert(lines(output@.skip(next as int)) =~= seq![]);
                assert(lines(rest) =~= seq![line@] + lines(output@.skip(next as int)));
            }
            lemma_scan_step(lines(output@.skip(next as int)), line@, scan_of(entries@, path, branch));
        }
        read_line(&mut entries, &mut path, &mut branch, line);
        pos = next;
    }
    proof {
        assert(output@.skip(pos as int) =~= seq![]);
    }
    read_line(&mut entries, &mut path, &mut branch, "");
    proof {
        assert(""@ =~= seq![]) by {
            reveal_strlit("");
        }
    }
    if entries.len() == 0 {
        return Err(String::from_str("no worktrees found in the current repository"));
    }
    Ok(entries)
}

} // verus!

verus! {

/// `p` is the path of a `worktree ` line among `ls`.
pub open spec fn path_listed(ls: Seq<Seq<char>>, p: Seq<char>) -> bool {
    exists|i: int| 0 <= i < ls.len() && strip_prefix_spec(#[trigger] ls[i], "worktree "@) == Some(p)
}

/// `b` is the short branch of a `branch ` line among `ls`.
pub open spec fn branch_listed(ls: Seq<Seq<char>>, b: Seq<char>) -> bool {
    exists|i: int|
        0 <= i < ls.len() && #[trigger] strip_prefix_spec(ls[i], "branch "@) is Some
            && short_branch(strip_prefix_spec(ls[i], "branch "@)->0) == b
}

pub open spec fn scan_listed(st: Scan, all: Seq<Seq<char>>) -> bool {
    &&& forall|j: int|
        0 <= j < st.0.len() ==> path_listed(all, (#[trigger] st.0[j]).0) && (st.0[j].1
            == detached_label() || branch_listed(all, st.0[j].1))
    &&& (st.1 matches Some(p) ==> path_listed(all, p))
    &&& (st.2 matches Some(b) ==> branch_listed(all, b))
}

proof fn lemma_scan_listed(ls: Seq<Seq<char>>, st: Scan, all: Seq<Seq<char>>)
    requires
        scan_listed(st, all),
        forall|i: int| 0 <= i < ls.len() ==> all.contains(#[trigger] ls[i]),
    ensures
        scan_listed(scan(ls, st), all),
    decreases ls.len(),
{
    if ls.len() > 0 {
        let line = ls[0];
        assert(all.contains(line));
        let k = choose|k: int| 0 <= k < all.len() && all[k] == line;
        let next = scan_line(st, line);
        assert(scan_listed(next, all)) by {
            if strip_prefix_spec(line, "worktree "@) is Some {
                assert(path_listed(all, next.1->0)) by {
                    assert(strip_prefix_spec(all[k], "worktree "@) == Some(next.1->0));
                }
            } else if strip_prefix_spec(line, "branch "@) is Some {
                assert(branch_listed(all, next.2->0)) by {
                    assert(strip_prefix_spec(all[k], "branch "@) is Some);
                }
            } else if line.len() == 0 && st.1 is Some {
                assert forall|j: int| 0 <= j < next.0.len() implies path_listed(all, (#[trigger] next.0[j]).0)
                    && (next.0[j].1 == detached_label() || branch_listed(all, next.0[j].1)) by {
                    if j < st.0.len() {
                        assert(next.0[j] == st.0[j]);
                    }
                }
            }
        }
        assert forall|i: int| 0 <= i < ls.drop_first().len() implies all.contains(
            #[trigger] ls.drop_first()[i],
        ) by {
            assert(ls.drop_first()[i] == ls[i + 1]);
        }
        lemma_scan_listed(ls.drop_first(), next, all);
    }
}

/// Every worktree read from a listing has the path of one of its
/// `worktree ` lines, and either the branch of one of its `branch ` lines
/// (without `refs/heads/`) or the label `detached HEAD`.
pub proof fn lemma_worktrees_come_from_listing(output: Seq<char>, j: int)
    requires
        worktrees_of(output) is Ok,
        0 <= j < worktrees_of(output)->Ok_0.len(),
    ensures
        path_listed(lines(output), worktrees_of(output)->Ok_0[j].0),
        worktrees_of(output)->Ok_0[j].1 == detached_label() || branch_listed(
            lines(output),
            worktrees_of(output)->Ok_0[j].1,
        ),
{
    let all = lines(output);
    assert forall|i: int| 0 <= i < all.len() implies all.contains(#[trigger] all[i]) by {}
    lemma_scan_listed(all, empty_scan(), all);
    let st = scan(all, empty_scan());
    let fin = scan_line(st, seq![]);
    assert(scan_listed(fin, all)) by {
        reveal_strlit("worktree ");
        reveal_strlit("branch ");
        if st.1 is Some {
            assert forall|i: int| 0 <= i < fin.0.len() implies path_listed(all, (#[trigger] fin.0[i]).0)
                && (fin.0[i].1 == detached_label() || branch_listed(all, fin.0[i].1)) by {
                if i < st.0.len() {
                    assert(fin.0[i] == st.0[i]);
                }
            }
        }
    }
    assert(fin.0[j] == worktrees_of(output)->Ok_0[j]);
}

} // verus!

verus! {

/// The menu label of a worktree: `<path>  [<branch>]`.
pub open spec fn choice_label(w: (Seq<char>, Seq<char>)) -> Seq<char> {
    w.0 + "  ["@ + w.1 + "]"@
}

/// The menu labels of worktrees, in order.
pub fn worktree_choices(entries: &Vec<Worktree>) -> (v: Vec<String>)
    ensures
        views(v@) == models(entries@).map_values(|w: (Seq<char>, Seq<char>)| choice_label(w)),
{
    let mut v: Vec<String> = Vec::new();
    let n = entries.len();
    let mut i: usize = 0;
    while i < n
        invariant
            n == entries@.len(),
            i <= n,
            views(v@) == models(entries@).take(i as int).map_values(
                |w: (Seq<char>, Seq<char>)| choice_label(w),
            ),
        decreases n - i,
    {
        let mut label = entries[i].path.clone();
        label.append("  [");
        label.append(entries[i].branch.as_str());
        label.append("]");
        let ghost before = v@;
        v.push(label);
        proof {
            assert(views(v@) =~= views(before).push(label@));
            assert(models(entries@).take(i + 1) =~= models(entries@).take(i as int).push(
                entries@[i as int].model(),
            ));
        }
        i = i + 1;
    }
    proof {
        assert(models(entries@).take(n as int) =~= models(entries@));
    }
    v
}

} // verus!

verus! {

/// Some line of `ls` starts with `worktree `.
pub open spec fn has_worktree_line(ls: Seq<Seq<char>>) -> bool {
    exists|i: int| 0 <= i < ls.len() && #[trigger] strip_prefix_spec(ls[i], "worktree "@) is Some
}

proof fn lemma_scan_finds_blocks(ls: Seq<Seq<char>>, st: Scan)
    ensures
        (scan(ls, st).0.len() > 0 || scan(ls, st).1 is Some) <==> (st.0.len() > 0 || st.1 is Some
            || has_worktree_line(ls)),
    decreases ls.len(),
{
    if ls.len() > 0 {
        let l = ls[0];
        let next = scan_line(st, l);
        lemma_scan_finds_blocks(ls.drop_first(), next);
        assert((next.0.len() > 0 || next.1 is Some) <==> (st.0.len() > 0 || st.1 is Some
            || strip_prefix_spec(l, "worktree "@) is Some));
        if has_worktree_line(ls) {
            let i = choose|i: int| 0 <= i < ls.len() && #[trigger] strip_prefix_spec(ls[i], "worktree "@) is Some;
            if i > 0 {
                assert(ls.drop_first()[i - 1] == ls[i]);
            }
        }
        if has_worktree_line(ls.drop_first()) {
            let i = choose|i: int| 0 <= i < ls.drop_first().len() && #[trigger] strip_prefix_spec(ls.drop_first()[i], "worktree "@) is Some;
            assert(ls[i + 1] == ls.drop_first()[i]);
        }
    } else {
        assert(!has_worktree_line(ls));
    }
}

/// Reading a listing fails exactly when none of its lines starts with
/// `worktree `; then the error is the message that no worktree was found.
pub proof fn lemma_no_worktrees_exactly_without_worktree_lines(output: Seq<char>)
    ensures
        worktrees_of(output) is Err <==> !has_worktree_line(lines(output)),
        worktrees_of(output) is Err ==> worktrees_of(output) == Err::<Seq<(Seq<char>, Seq<char>)>, Seq<char>>(
            no_worktrees_message(),
        ),
{
    reveal_strlit("worktree ");
    reveal_strlit("branch ");
    lemma_scan_finds_blocks(lines(output), empty_scan());
}

/// The branch that the lines `mids` of a record leave, starting from `cur`:
/// the short form of the last `branch ` line, or `cur` when there is none.
pub open spec fn branch_after(mids: Seq<Seq<char>>, cur: Option<Seq<char>>) -> Option<Seq<char>>
    decreases mids.len(),
{
    if mids.len() == 0 {
        cur
    } else {
        branch_after(
            mids.drop_first(),
            match strip_prefix_spec(mids[0], "branch "@) {
                Some(v) => Some(short_branch(v)),
                None => cur,
            },
        )
    }
}

/// A record of the listing: its path, and the lines after its `worktree `
/// line, none of them empty or starting with `worktree `.
pub open spec fn good_mids(mids: Seq<Seq<char>>) -> bool {
    forall|i: int|
        0 <= i < mids.len() ==> (#[trigger] mids[i]).len() > 0 && strip_prefix_spec(mids[i], "worktree "@) is None
}

/// The lines of a record: `worktree <path>`, its other lines, and an empty line.
pub open spec fn record_lines(r: (Seq<char>, Seq<Seq<char>>)) -> Seq<Seq<char>> {
    seq!["worktree "@ + r.0] + r.1 + seq![seq![]]
}

/// The lines of records, one after the other.
pub open spec fn records_lines(rs: Seq<(Seq<char>, Seq<Seq<char>>)>) -> Seq<Seq<char>>
    decreases rs.len(),
{
    if rs.len() == 0 {
        seq![]
    } else {
        record_lines(rs[0]) + records_lines(rs.drop_first())
    }
}

/// The worktree a record gives: its path, and the short form of its last
/// `branch ` line or `detached HEAD`.
pub open spec fn record_entry(r: (Seq<char>, Seq<Seq<char>>)) -> (Seq<char>, Seq<char>) {
    (
        r.0,
        match branch_after(r.1, None) {
            Some(b) => b,
            None => detached_label(),
        },
    )
}

/// The worktrees that records give, in order.
pub open spec fn record_entries(rs: Seq<(Seq<char>, Seq<Seq<char>>)>) -> Seq<(Seq<char>, Seq<char>)> {
    rs.map_values(|r: (Seq<char>, Seq<Seq<char>>)| record_entry(r))
}

proof fn lemma_scan_one(l: Seq<char>, st: Scan)
    ensures
        scan(seq![l], st) == scan_line(st, l),
{
    assert(seq![l].drop_first() =~= Seq::<Seq<char>>::empty());
    assert(scan(Seq::<Seq<char>>::empty(), scan_line(st, l)) == scan_line(st, l));
}

proof fn lemma_scan_concat(a: Seq<Seq<char>>, b: Seq<Seq<char>>, st: Scan)
    ensures
        scan(a + b, st) == scan(b, scan(a, st)),
    decreases a.len(),
{
    if a.len() == 0 {
        assert(a + b =~= b);
    } else {
        assert((a + b).drop_first() =~= a.drop_first() + b);
        assert((a + b)[0] == a[0]);
        lemma_scan_concat(a.drop_first(), b, scan_line(st, a[0]));
    }
}

proof fn lemma_scan_mids(mids: Seq<Seq<char>>, es: Seq<(Seq<char>, Seq<char>)>, p: Seq<char>, b: Option<Seq<char>>)
    requires
        good_mids(mids),
    ensures
        scan(mids, (es, Some(p), b)) == (es, Some(p), branch_after(mids, b)),
    decreases mids.len(),
{
    if mids.len() > 0 {
        let l = mids[0];
        assert(l.len() > 0 && strip_prefix_spec(l, "worktree "@) is None);
        assert(good_mids(mids.drop_first())) by {
            assert forall|i: int| 0 <= i < mids.drop_first().len() implies (#[trigger] mids.drop_first()[i]).len() > 0
                && strip_prefix_spec(mids.drop_first()[i], "worktree "@) is None by {
                assert(mids.drop_first()[i] == mids[i + 1]);
            }
        }
        let nb = match strip_prefix_spec(l, "branch "@) {
            Some(v) => Some(short_branch(v)),
            None => b,
        };
        assert(scan_line((es, Some(p), b), l) == (es, Some(p), nb));
        lemma_scan_mids(mids.drop_first(), es, p, nb);
    }
}

proof fn lemma_scan_records(rs: Seq<(Seq<char>, Seq<Seq<char>>)>, es: Seq<(Seq<char>, Seq<char>)>)
    requires
        forall|i: int| 0 <= i < rs.len() ==> good_mids(#[trigger] rs[i].1),
    ensures
        scan(records_lines(rs), (es, None, None)) == (es + record_entries(rs), None::<Seq<char>>, None::<Seq<char>>),
    decreases rs.len(),
{
    reveal_strlit("worktree ");
    reveal_strlit("branch ");
    if rs.len() == 0 {
        assert(es + record_entries(rs) =~= es);
    } else {
        let r = rs[0];
        let first = seq!["worktree "@ + r.0];
        assert(good_mids(r.1));
        lemma_scan_concat(record_lines(r), records_lines(rs.drop_first()), (es, None, None));
        assert(record_lines(r) =~= first + (r.1 + seq![seq![]]));
        lemma_scan_concat(first, r.1 + seq![seq![]], (es, None, None));
        assert(strip_prefix_spec("worktree "@ + r.0, "worktree "@) == Some(r.0)) by {
            assert(("worktree "@ + r.0).skip("worktree "@.len() as int) =~= r.0);
            assert("worktree "@.is_prefix_of("worktree "@ + r.0));
        }
        lemma_scan_one("worktree "@ + r.0, (es, None, None));
        lemma_scan_concat(r.1, seq![seq![]], (es, Some(r.0), None));
        lemma_scan_mids(r.1, es, r.0, None);
        let after = (es, Some(r.0), branch_after(r.1, None));
        lemma_scan_one(seq![], after);
        let es2 = es.push(record_entry(r));
        assert(scan_line(after, seq![]) == (es2, None::<Seq<char>>, None::<Seq<char>>));
        assert forall|i: int| 0 <= i < rs.drop_first().len() implies good_mids(#[trigger] rs.drop_first()[i].1) by {
            assert(rs.drop_first()[i] == rs[i + 1]);
        }
        lemma_scan_records(rs.drop_first(), es2);
        assert(es2 + record_entries(rs.drop_first()) =~= es + record_entries(rs));
    }
}

/// A listing made of records maps each record, in order, to one worktree:
/// the path of its `worktree ` line and the short form of its last
/// `branch ` line, or `detached HEAD` when it has none. The empty line after
/// the last record may be missing.
pub proof fn lemma_records_map_to_worktrees(output: Seq<char>, rs: Seq<(Seq<char>, Seq<Seq<char>>)>)
    requires
        rs.len() > 0,
        forall|i: int| 0 <= i < rs.len() ==> good_mids(#[trigger] rs[i].1),
        lines(output) == records_lines(rs) || lines(output) == records_lines(rs).drop_last(),
    ensures
        worktrees_of(output) == Ok::<Seq<(Seq<char>, Seq<char>)>, Seq<char>>(record_entries(rs)),
{
    let all = records_lines(rs);
    let empty: Seq<(Seq<char>, Seq<char>)> = seq![];
    lemma_scan_records(rs, empty);
    assert(empty + record_entries(rs) =~= record_entries(rs));
    lemma_records_end_empty(rs);
    let done = (record_entries(rs), None::<Seq<char>>, None::<Seq<char>>);
    assert(scan(all, empty_scan()) == done);
    assert(scan_line(done, seq![]) == done) by {
        reveal_strlit("worktree ");
        reveal_strlit("branch ");
    }
    if lines(output) != all {
        assert(all =~= all.drop_last() + seq![seq![]]);
        lemma_scan_concat(all.drop_last(), seq![seq![]], empty_scan());
        lemma_scan_one(seq![], scan(all.drop_last(), empty_scan()));
    }
    assert(record_entries(rs).len() > 0);
}

proof fn lemma_records_end_empty(rs: Seq<(Seq<char>, Seq<Seq<char>>)>)
    requires
        rs.len() > 0,
    ensures
        records_lines(rs).len() > 0,
        records_lines(rs).last() == Seq::<char>::empty(),
    decreases rs.len(),
{
    if rs.len() == 1 {
        assert(rs.drop_first() =~= Seq::<(Seq<char>, Seq<Seq<char>>)>::empty());
        assert(records_lines(rs.drop_first()) =~= seq![]);
        assert(records_lines(rs) =~= record_lines(rs[0]));
    } else {
        lemma_records_end_empty(rs.drop_first());
    }
}

} // verus!
