//! Where the repository keeps worktrees, plans and the agent skill.
use vstd::prelude::*;

verus! {

/// `rel` appended to `base` as `PathBuf::join` does it on Unix: an absolute
/// `rel` replaces `base`; otherwise a `/` is put between them unless `base`
/// is empty or already ends with one.
pub open spec fn join_path(base: Seq<char>, rel: Seq<char>) -> Seq<char> {
    if rel.len() > 0 && rel[0] == '/' {
        rel
    } else if base.len() > 0 && base.last() != '/' {
        base + seq!['/'] + rel
    } else {
        base + rel
    }
}

/// Joins two paths; see `join_path`.
pub fn join(base: &str, rel: &str) -> (r: String)
    ensures
        r@ == join_path(base@, rel@),
{
    let nb = base.unicode_len();
    let nr = rel.unicode_len();
    if nr > 0 && rel.get_char(0) == '/' {
        return rel.to_owned();
    }
    let mut r = base.to_owned();
    if nb > 0 && base.get_char(nb - 1) != '/' {
        r.append("/");
        proof {
            reveal_strlit("/");
        }
    }
    r.append(rel);
    r
}

/// Where the planning records of a repository live.
pub open spec fn plans_root(root: Seq<char>) -> Seq<char> {
    join_path(root, "docs/agents/plans"@)
}

/// The plan directory of `branch` under a checkout at `root`.
pub open spec fn plan_dir(root: Seq<char>, branch: Seq<char>) -> Seq<char> {
    join_path(plans_root(root), branch)
}

/// Where the linked worktrees of a repository live.
pub open spec fn worktrees_root(root: Seq<char>) -> Seq<char> {
    join_path(root, ".worktrees"@)
}

/// The linked worktree of `branch` in the repository at `root`.
pub open spec fn worktree_dir(root: Seq<char>, branch: Seq<char>) -> Seq<char> {
    join_path(worktrees_root(root), branch)
}

/// The place where the agent skill must be installed under a home directory.
pub open spec fn skill_file(home: Seq<char>) -> Seq<char> {
    join_path(home, ".agents/skills/acta/SKILL.md"@)
}

pub fn plans_root_of(root: &str) -> (r: String)
    ensures
        r@ == plans_root(root@),
{
    join(root, "docs/agents/plans")
}

pub fn worktree_of(root: &str, branch: &str) -> (r: String)
    ensures
        r@ == worktree_dir(root@, branch@),
{
    let w = join(root, ".worktrees");
    join(w.as_str(), branch)
}

pub fn plan_dir_of(root: &str, branch: &str) -> (r: String)
    ensures
        r@ == plan_dir(root@, branch@),
{
    let p = join(root, "docs/agents/plans");
    join(p.as_str(), branch)
}

pub fn skill_path(home: &str) -> (r: String)
    ensures
        r@ == skill_file(home@),
{
    join(home, ".agents/skills/acta/SKILL.md")
}

/// The message when the checkout has no branch to hold a plan.
pub open spec fn no_branch_message() -> Seq<char> {
    "the current checkout has no branch"@
}

/// The plan directory of the branch checked out at `root`, or an error
/// when the checkout is on no branch (a detached `HEAD` or an empty name).
pub open spec fn plan_directory_spec(branch: Seq<char>, root: Seq<char>) -> Result<Seq<char>, Seq<char>> {
    if branch == "HEAD"@ || branch.len() == 0 {
        Err(no_branch_message())
    } else {
        Ok(plan_dir(root, branch))
    }
}

/// Whether `branch` is `HEAD`, which `git rev-parse --abbrev-ref HEAD`
/// prints for a detached checkout.
pub fn is_head(branch: &str) -> (b: bool)
    ensures
        b == (branch@ == "HEAD"@),
{
    let head = "HEAD";
    proof {
        reveal_strlit("HEAD");
    }
    if branch.unicode_len() != 4 {
        return false;
    }
    let same = branch.get_char(0) == 'H' && branch.get_char(1) == 'E' && branch.get_char(2) == 'A'
        && branch.get_char(3) == 'D';
    proof {
        if same {
            assert(branch@ =~= head@);
        }
        if branch@ == head@ {
            assert(branch@[0] == 'H' && branch@[1] == 'E' && branch@[2] == 'A' && branch@[3] == 'D');
        }
    }
    same
}

/// Whether `branch` names a branch at all: neither `HEAD` nor empty.
pub fn on_branch(branch: &str) -> (b: bool)
    ensures
        b == !(branch@ == "HEAD"@ || branch@.len() == 0),
{
    branch.unicode_len() != 0 && !is_head(branch)
}

/// The plan directory for the checked-out `branch` of the repository at `root`.
pub fn plan_directory(branch: &str, root: &str) -> (r: Result<String, String>)
    ensures
        match r {
            Ok(p) => plan_directory_spec(branch@, root@) == Ok::<Seq<char>, Seq<char>>(p@),
            Err(m) => plan_directory_spec(branch@, root@) == Err::<Seq<char>, Seq<char>>(m@),
        },
{
    if !on_branch(branch) {
        return Err(String::from_str("the current checkout has no branch"));
    }
    Ok(plan_dir_of(root, branch))
}

/// The message when the agent skill is not installed.
pub open spec fn missing_skill_message(skill: Seq<char>) -> Seq<char> {
    "Acta skill not found at `"@ + skill
        + "`; install `templates/skills/acta` there before initializing"@
}

/// Initialization needs the agent skill under the home directory: given
/// whether the file at `skill_path(home)` exists, this is `Ok` exactly when
/// it does.
pub fn ensure_skill_installed(home: &str, found: bool) -> (r: Result<(), String>)
    ensures
        r is Ok <==> found,
        r matches Err(m) ==> m@ == missing_skill_message(skill_file(home@)),
{
    if found {
        Ok(())
    } else {
        let skill = skill_path(home);
        let mut m = String::from_str("Acta skill not found at `");
        m.append(skill.as_str());
        m.append("`; install `templates/skills/acta` there before initializing");
        Err(m)
    }
}

} // verus!
