//! Reading what Git reports, and the arguments handed to it.
use vstd::prelude::*;
use vstd::string::*;
use crate::error::Error;
use crate::model::{WorkspaceCheckout};
use crate::seqs::{views, is_first, first_index, lemma_first_index_found, lemma_first_index_none};

verus! {

/// Drops one trailing carriage return.
pub open spec fn strip_cr(x: Seq<char>) -> Seq<char> {
    if x.len() > 0 && x.last() == '\r' {
        x.drop_last()
    } else {
        x
    }
}

/// The lines of `s[start..]`, scanning from `i`, as `str::lines` yields
/// them: split at `\n`, a `\r` before it dropped, no empty line after a final
/// newline.
pub open spec fn lines_from(s: Seq<char>, start: int, i: int) -> Seq<Seq<char>>
    decreases s.len() - i,
{
    if i >= s.len() {
        if start < s.len() {
            seq![s.subrange(start, s.len() as int)]
        } else {
            seq![]
        }
    } else if s[i] == '\n' {
        seq![strip_cr(s.subrange(start, i))] + lines_from(s, i + 1, i + 1)
    } else {
        lines_from(s, start, i + 1)
    }
}

/// The lines of `s`.
pub open spec fn lines(s: Seq<char>) -> Seq<Seq<char>> {
    lines_from(s, 0, 0)
}

/// The pieces of `s[start..]` between blank-line separators (`\n\n`),
/// scanning from `i`, as `str::split("\n\n")` yields them.
pub open spec fn blocks_from(s: Seq<char>, start: int, i: int) -> Seq<Seq<char>>
    decreases s.len() - i,
{
    if i >= s.len() {
        seq![s.subrange(start, s.len() as int)]
    } else if i + 1 < s.len() && s[i] == '\n' && s[i + 1] == '\n' {
        seq![s.subrange(start, i)] + blocks_from(s, i + 2, i + 2)
    } else {
        blocks_from(s, start, i + 1)
    }
}

/// The blocks of `s`.
pub open spec fn blocks(s: Seq<char>) -> Seq<Seq<char>> {
    blocks_from(s, 0, 0)
}

/// The lines of `s`.
pub fn lines_of(s: &str) -> (r: Vec<String>)
    ensures
        views(r@) == lines(s@),
{
    let n = s.unicode_len();
    let mut out: Vec<String> = Vec::new();
    let mut start: usize = 0;
    let mut i: usize = 0;
    while i < n
        invariant
            n == s@.len(),
            start <= i <= n,
            views(out@) + lines_from(s@, start as int, i as int) == lines(s@),
        decreases n - i,
    {
        if s.get_char(i) == '\n' {
            let piece = s.substring_char(start, i);
            let m = piece.unicode_len();
            let line = if m > 0 && piece.get_char(m - 1) == '\r' {
                piece.substring_char(0, m - 1).to_owned()
            } else {
                piece.to_owned()
            };
            proof {
                assert(line@ =~= strip_cr(s@.subrange(start as int, i as int)));
            }
            let ghost before = out@;
            out.push(line);
            proof {
                assert(views(out@) =~= views(before).push(line@));
                assert(views(out@) + lines_from(s@, (i + 1) as int, (i + 1) as int) =~= views(before)
                    + lines_from(s@, start as int, i as int));
            }
            start = i + 1;
        }
        i = i + 1;
    }
    if start < n {
        let ghost before = out@;
        out.push(s.substring_char(start, n).to_owned());
        proof {
            assert(views(out@) =~= views(before).push(s@.subrange(start as int, n as int)));
            assert(views(out@) =~= views(before) + lines_from(s@, start as int, n as int));
        }
    } else {
        assert(views(out@) =~= views(out@) + lines_from(s@, start as int, n as int));
    }
    out
}

/// The blank-line separated blocks of `s`.
pub fn blocks_of(s: &str) -> (r: Vec<String>)
    ensures
        views(r@) == blocks(s@),
{
    let n = s.unicode_len();
    let mut out: Vec<String> = Vec::new();
    let mut start: usize = 0;
    let mut i: usize = 0;
    while i < n
        invariant
            n == s@.len(),
            start <= i,
            i <= n + 1,
            start <= n,
            views(out@) + blocks_from(s@, start as int, i as int) == blocks(s@),
        decreases n + 1 - i,
    {
        if i + 1 < n && s.get_char(i) == '\n' && s.get_char(i + 1) == '\n' {
            let piece = s.substring_char(start, i).to_owned();
            let ghost before = out@;
            out.push(piece);
            proof {
                assert(views(out@) =~= views(before).push(piece@));
                assert(views(out@) + blocks_from(s@, (i + 2) as int, (i + 2) as int) =~= views(before)
                    + blocks_from(s@, start as int, i as int));
            }
            start = i + 2;
            i = i + 2;
        } else {
            i = i + 1;
        }
    }
    let ghost before = out@;
    out.push(s.substring_char(start, n).to_owned());
    proof {
        assert(views(out@) =~= views(before).push(s@.subrange(start as int, n as int)));
        assert(views(out@) =~= views(before) + blocks_from(s@, start as int, i as int));
    }
    out
}

/// `s` starts with `p`.
pub open spec fn has_prefix(s: Seq<char>, p: Seq<char>) -> bool {
    p.len() <= s.len() && s.subrange(0, p.len() as int) == p
}

fn starts(s: &str, p: &str) -> (r: bool)
    ensures
        r == has_prefix(s@, p@),
{
    let n = p.unicode_len();
    if n > s.unicode_len() {
        return false;
    }
    let head = s.substring_char(0, n);
    crate::text::same(head, p)
}

/// The line a worktree listing starts a checkout's block with.
pub open spec fn worktree_line(path: Seq<char>) -> Seq<char> {
    "worktree "@ + path
}

/// Holds of the listing block that registers `path`.
pub open spec fn registers(path: Seq<char>) -> spec_fn(Seq<char>) -> bool {
    |b: Seq<char>| lines(b).len() > 0 && lines(b)[0] == worktree_line(path)
}

/// A `locked` line, with or without a reason.
pub open spec fn is_lock_line(l: Seq<char>) -> bool {
    l == "locked"@ || has_prefix(l, "locked "@)
}

/// A block marks its worktree locked.
pub open spec fn locked(b: Seq<char>) -> bool {
    exists|i: int| 0 <= i < lines(b).len() && #[trigger] is_lock_line(lines(b)[i])
}

/// Checks `git worktree list --porcelain` output for the checkout at `path`:
/// its block must be present (the first one whose first line names it) and
/// not marked locked.
pub fn worktree_registration(listing: &str, path: &str) -> (r: Result<(), Error>)
    ensures
        first_index(blocks(listing@), registers(path@)) < 0 ==> r == Err::<(), Error>(Error::NotRegistered),
        first_index(blocks(listing@), registers(path@)) >= 0 ==> (if locked(
            blocks(listing@)[first_index(blocks(listing@), registers(path@))],
        ) {
            r == Err::<(), Error>(Error::WorktreeLocked)
        } else {
            r is Ok
        }),
{
    proof { reveal_strlit("worktree "); }
    let first = String::from_str("worktree ").concat(path);
    let bs = blocks_of(listing);
    let ghost p = registers(path@);
    let mut k: usize = 0;
    while k < bs.len()
        invariant
            p == registers(path@),
            first@ == worktree_line(path@),
            views(bs@) == blocks(listing@),
            k <= bs.len(),
            forall|j: int| 0 <= j < k ==> !p(#[trigger] views(bs@)[j]),
        decreases bs.len() - k,
    {
        let ls = lines_of(bs[k].as_str());
        proof { assert(views(bs@)[k as int] == bs@[k as int]@); }
        if ls.len() > 0 && ls[0] == first {
            proof {
                assert(views(ls@)[0] == ls@[0]@);
                assert(is_first(views(bs@), p, k as int));
                lemma_first_index_found(views(bs@), p, k as int);
            }
            let mut i: usize = 0;
            while i < ls.len()
                invariant
                    i <= ls.len(),
                    k < bs@.len(),
                    views(bs@) == blocks(listing@),
                    first_index(blocks(listing@), registers(path@)) == k,
                    views(ls@) == lines(bs@[k as int]@),
                    forall|j: int| 0 <= j < i ==> !#[trigger] is_lock_line(views(ls@)[j]),
                decreases ls.len() - i,
            {
                proof { reveal_strlit("locked"); reveal_strlit("locked "); }
                let l = ls[i].as_str();
                proof { assert(views(ls@)[i as int] == l@); }
                if crate::text::same(l, "locked") || starts(l, "locked ") {
                    proof {
                        assert(views(bs@)[k as int] == bs@[k as int]@);
                        assert(is_lock_line(lines(blocks(listing@)[k as int])[i as int]));
                    }
                    return Err(Error::WorktreeLocked);
                }
                i = i + 1;
            }
            proof {
                assert(views(bs@)[k as int] == bs@[k as int]@);
            }
            return Ok(());
        }
        proof {
            assert(views(ls@).len() == ls@.len());
            if ls@.len() > 0 {
                assert(views(ls@)[0] == ls@[0]@);
            }
        }
        k = k + 1;
    }
    proof { lemma_first_index_none(views(bs@), p); }
    Err(Error::NotRegistered)
}

/// Whether a worktree listing has a line registering `path`.
pub fn lists_worktree(listing: &str, path: &str) -> (r: bool)
    ensures
        r == lines(listing@).contains(worktree_line(path@)),
{
    proof { reveal_strlit("worktree "); }
    let first = String::from_str("worktree ").concat(path);
    let ls = lines_of(listing);
    let mut i: usize = 0;
    while i < ls.len()
        invariant
            i <= ls.len(),
            first@ == worktree_line(path@),
            views(ls@) == lines(listing@),
            forall|j: int| 0 <= j < i ==> views(ls@)[j] != first@,
        decreases ls.len() - i,
    {
        if ls[i] == first {
            proof { assert(views(ls@)[i as int] == first@); }
            return true;
        }
        i = i + 1;
    }
    false
}

/// The argument `git rev-parse --verify` resolves a revision to a commit
/// with; an empty revision is refused.
pub fn commit_argument(revision: &str) -> (r: Result<String, Error>)
    ensures
        revision@.len() == 0 ==> r == Err::<String, Error>(Error::RevisionRequired),
        revision@.len() > 0 ==> (r matches Ok(a) && a@ == revision@ + "^{commit}"@),
{
    if revision.unicode_len() == 0 {
        return Err(Error::RevisionRequired);
    }
    Ok(revision.to_owned().concat("^{commit}"))
}

/// The task branch of a workspace in a repository: `fv/<workspace>/<repository>`.
pub open spec fn branch_name(workspace_id: Seq<char>, repository_id: Seq<char>) -> Seq<char> {
    "fv/"@ + workspace_id + "/"@ + repository_id
}

pub fn task_branch(workspace_id: &str, repository_id: &str) -> (r: String)
    ensures
        r@ == branch_name(workspace_id@, repository_id@),
{
    String::from_str("fv/").concat(workspace_id).concat("/").concat(repository_id)
}

/// The reference of a local branch.
pub fn branch_ref(branch: &str) -> (r: String)
    ensures
        r@ == "refs/heads/"@ + branch@,
{
    String::from_str("refs/heads/").concat(branch)
}

/// The verdict on `lsof -t +D <workspace>`: any listed process retains the
/// workspace; anything but a clean "nothing found" is inconclusive.
pub fn idle_verdict(listed_nothing: bool, exit_code: Option<i32>, stderr: &str) -> (r: Result<(), Error>)
    ensures
        !listed_nothing ==> r == Err::<(), Error>(Error::ActiveProcesses),
        listed_nothing && !(exit_code == Some(1i32) && stderr@.len() == 0) ==> (r matches Err(
            Error::InspectionInconclusive(m),
        ) && m@ == stderr@),
        r is Ok <==> listed_nothing && exit_code == Some(1i32) && stderr@.len() == 0,
{
    if !listed_nothing {
        return Err(Error::ActiveProcesses);
    }
    if !(exit_code == Some(1i32) && stderr.unicode_len() == 0) {
        return Err(Error::InspectionInconclusive(stderr.to_owned()));
    }
    Ok(())
}

/// A linked checkout must still be rooted where it was recorded
/// (`git rev-parse --show-toplevel`).
pub fn checkout_root(c: &WorkspaceCheckout, toplevel: &str) -> (r: Result<(), Error>)
    ensures
        r is Ok <==> toplevel@ == c.path@,
        r is Err ==> r == Err::<(), Error>(Error::CheckoutRootChanged),
{
    if crate::text::same(toplevel, c.path.as_str()) {
        Ok(())
    } else {
        Err(Error::CheckoutRootChanged)
    }
}

/// A linked checkout has a `.git` file, not a directory of its own.
pub fn linked_checkout(git_file: bool) -> (r: Result<(), Error>)
    ensures
        r is Ok <==> git_file,
        r is Err ==> r == Err::<(), Error>(Error::LinkedCheckoutMissing),
{
    if git_file {
        Ok(())
    } else {
        Err(Error::LinkedCheckoutMissing)
    }
}

/// A linked checkout shares the repository's Git directory.
pub fn shared_repository(same_git_dir: bool) -> (r: Result<(), Error>)
    ensures
        r is Ok <==> same_git_dir,
        r is Err ==> r == Err::<(), Error>(Error::DifferentRepository),
{
    if same_git_dir {
        Ok(())
    } else {
        Err(Error::DifferentRepository)
    }
}

/// A linked checkout still has its task branch checked out
/// (`git symbolic-ref --short HEAD`).
pub fn checkout_branch(c: &WorkspaceCheckout, branch: &str) -> (r: Result<(), Error>)
    ensures
        r is Ok <==> branch@ == c.branch@,
        r is Err ==> r == Err::<(), Error>(Error::BranchChanged),
{
    if crate::text::same(branch, c.branch.as_str()) {
        Ok(())
    } else {
        Err(Error::BranchChanged)
    }
}

} // verus!
