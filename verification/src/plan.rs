//! Planning one backup pass.
//!
//! For every listed repository the tool either clones it fresh — when no
//! directory of its name exists under the backup root — or pulls updates in
//! place. This module takes the listing outcome and the names already
//! present and produces the pass's plan, and it models the effect every
//! plan has on the set of directory names under the backup root.

use vstd::prelude::*;

use crate::listing::ListError;
use crate::repo::Repo;
use crate::repo::RepoModel;
use crate::url::inject_token;
use crate::url::spec_inject_token;
use vstd::string::StringExecFns;

verus! {

/// What to do for one repository: clone `url` into the name's directory,
/// or pull all remotes inside that directory.
pub enum SyncAction {
    CloneRepo { name: String, url: String },
    PullRepo { name: String },
}

/// The mathematical image of an action.
pub enum ActionModel {
    CloneRepo { name: Seq<char>, url: Seq<char> },
    PullRepo { name: Seq<char> },
}

impl View for SyncAction {
    type V = ActionModel;

    open spec fn view(&self) -> ActionModel {
        match self {
            SyncAction::CloneRepo { name, url } => ActionModel::CloneRepo {
                name: name@,
                url: url@,
            },
            SyncAction::PullRepo { name } => ActionModel::PullRepo { name: name@ },
        }
    }
}

/// The local working-copy path for `name` under `root`: `root/name`.
pub open spec fn spec_backup_path(root: Seq<char>, name: Seq<char>) -> Seq<char> {
    root.push('/') + name
}

/// Builds the local working-copy path for `name` under `root`.
pub fn backup_path(root: &str, name: &str) -> (r: String)
    ensures
        r@ == spec_backup_path(root@, name@),
{
    proof {
        reveal_strlit("/");
    }
    let r = root.to_owned().concat("/").concat(name);
    proof {
        assert(r@ =~= spec_backup_path(root@, name@));
    }
    r
}

/// Whether `name` occurs among the existing directory names.
pub fn contains_name(existing: &Vec<String>, name: &String) -> (r: bool)
    ensures
        r == existing.deep_view().contains(name@),
{
    let n = existing.len();
    let mut i: usize = 0;
    while i < n
        invariant
            i <= n,
            n == existing.len(),
            forall|j: int| 0 <= j < i ==> existing.deep_view()[j] != name@,
        decreases n - i,
    {
        if existing[i] == *name {
            assert(existing.deep_view()[i as int] == name@);
            return true;
        }
        i = i + 1;
    }
    assert(!existing.deep_view().contains(name@));
    false
}

/// The clone-or-pull decision for one repository, given the directory
/// names already present under the backup root: a known name is updated in
/// place, an unknown one is cloned through its credentialled URL.
pub open spec fn spec_plan_repo(repo: RepoModel, dirs: Set<Seq<char>>, token: Seq<char>) -> ActionModel {
    if dirs.contains(repo.name) {
        ActionModel::PullRepo { name: repo.name }
    } else {
        ActionModel::CloneRepo { name: repo.name, url: spec_inject_token(repo.clone_url, token) }
    }
}

/// Decides clone-or-pull for one repository.
pub fn plan_repo(repo: &Repo, existing: &Vec<String>, token: &str) -> (a: SyncAction)
    ensures
        a@ == spec_plan_repo(repo@, existing.deep_view().to_set(), token@),
{
    if contains_name(existing, &repo.name) {
        SyncAction::PullRepo { name: repo.name.clone() }
    } else {
        SyncAction::CloneRepo {
            name: repo.name.clone(),
            url: inject_token(repo.clone_url.as_str(), token),
        }
    }
}

/// The plan for a descriptor sequence against one view of the tree.
pub open spec fn spec_pass_plan(
    repos: Seq<RepoModel>,
    dirs: Set<Seq<char>>,
    token: Seq<char>,
) -> Seq<ActionModel> {
    Seq::new(repos.len(), |i: int| spec_plan_repo(repos[i], dirs, token))
}

/// Builds one pass's whole plan: nothing on a failed listing — the pass is
/// skipped and the next tick retries — else one action per descriptor, in
/// listing order, against the directory names present when the pass began.
pub fn plan_pass(listing: Result<Vec<Repo>, ListError>, existing: &Vec<String>, token: &str) -> (plan: Vec<
    SyncAction,
>)
    ensures
        listing is Err ==> plan@.len() == 0,
        listing matches Ok(repos) ==> plan@.map_values(|a: SyncAction| a@) == spec_pass_plan(
            repos@.map_values(|r: Repo| r@),
            existing.deep_view().to_set(),
            token@,
        ),
{
    match listing {
        Err(_) => Vec::new(),
        Ok(repos) => {
            let mut plan: Vec<SyncAction> = Vec::new();
            let n = repos.len();
            let mut i: usize = 0;
            while i < n
                invariant
                    i <= n,
                    n == repos.len(),
                    plan@.len() == i,
                    forall|j: int| 0 <= j < i ==> plan@[j]@ == spec_plan_repo(
                        repos@[j]@,
                        existing.deep_view().to_set(),
                        token@,
                    ),
                decreases n - i,
            {
                let a = plan_repo(&repos[i], existing, token);
                plan.push(a);
                i = i + 1;
            }
            proof {
                assert(plan@.map_values(|a: SyncAction| a@) =~= spec_pass_plan(
                    repos@.map_values(|r: Repo| r@),
                    existing.deep_view().to_set(),
                    token@,
                ));
            }
            plan
        },
    }
}

/// The names the backup tree holds after carrying one action out: a clone
/// creates the repository's directory, a pull changes no names.
pub open spec fn apply_action(dirs: Set<Seq<char>>, a: ActionModel) -> Set<Seq<char>> {
    match a {
        ActionModel::CloneRepo { name, url } => dirs.insert(name),
        ActionModel::PullRepo { name } => dirs,
    }
}

/// The names after carrying a whole plan out, in order.
pub open spec fn apply_plan(dirs: Set<Seq<char>>, plan: Seq<ActionModel>) -> Set<Seq<char>>
    decreases plan.len(),
{
    if plan.len() == 0 {
        dirs
    } else {
        apply_plan(apply_action(dirs, plan[0]), plan.skip(1))
    }
}

/// The names of a descriptor sequence.
pub open spec fn names_of(repos: Seq<RepoModel>) -> Set<Seq<char>>
    decreases repos.len(),
{
    if repos.len() == 0 {
        Set::empty()
    } else {
        names_of(repos.skip(1)).insert(repos[0].name)
    }
}

/// The backup tree's names after one full pass: the old names plus one
/// directory per listed repository.
pub open spec fn tree_after_pass(dirs: Set<Seq<char>>, repos: Seq<RepoModel>) -> Set<Seq<char>> {
    dirs + names_of(repos)
}

/// Law: a repository whose name is absent under the backup root is planned
/// as a fresh clone of its credentialled URL, and carrying that clone out
/// adds exactly its name to the tree.
pub proof fn lemma_new_repo_cloned(repo: RepoModel, dirs: Set<Seq<char>>, token: Seq<char>)
    requires
        !dirs.contains(repo.name),
    ensures
        spec_plan_repo(repo, dirs, token) == (ActionModel::CloneRepo {
            name: repo.name,
            url: spec_inject_token(repo.clone_url, token),
        }),
        apply_action(dirs, spec_plan_repo(repo, dirs, token)) == dirs.insert(repo.name),
{
}

/// Law: a repository whose name is already present is planned as an update
/// in place, and carrying that update out creates no directory — the
/// tree's names are exactly what they were.
pub proof fn lemma_existing_repo_pulled(repo: RepoModel, dirs: Set<Seq<char>>, token: Seq<char>)
    requires
        dirs.contains(repo.name),
    ensures
        spec_plan_repo(repo, dirs, token) == (ActionModel::PullRepo { name: repo.name }),
        apply_action(dirs, spec_plan_repo(repo, dirs, token)) == dirs,
{
}

proof fn lemma_plan_effect_general(
    repos: Seq<RepoModel>,
    plan_dirs: Set<Seq<char>>,
    acc: Set<Seq<char>>,
    token: Seq<char>,
)
    requires
        plan_dirs.subset_of(acc),
    ensures
        apply_plan(acc, spec_pass_plan(repos, plan_dirs, token)) == acc + names_of(repos),
    decreases repos.len(),
{
    if repos.len() == 0 {
        assert(acc + names_of(repos) =~= acc);
    } else {
        let p = spec_pass_plan(repos, plan_dirs, token);
        let a = spec_plan_repo(repos[0], plan_dirs, token);
        let acc2 = apply_action(acc, a);
        assert(p.skip(1) =~= spec_pass_plan(repos.skip(1), plan_dirs, token));
        assert(plan_dirs.subset_of(acc2));
        lemma_plan_effect_general(repos.skip(1), plan_dirs, acc2, token);
        assert(acc2 + names_of(repos.skip(1)) =~= acc + names_of(repos));
    }
}

/// Law: carrying out the whole plan of one pass turns the tree's names
/// into exactly the names it had before plus the listed repositories'
/// names — no repository is missed, duplicated, or misplaced.
pub proof fn lemma_pass_effect(repos: Seq<RepoModel>, dirs: Set<Seq<char>>, token: Seq<char>)
    ensures
        apply_plan(dirs, spec_pass_plan(repos, dirs, token)) == tree_after_pass(dirs, repos),
{
    lemma_plan_effect_general(repos, dirs, dirs, token);
}

/// Law: a pass is idempotent on the tree's names — a second pass over an
/// unchanged listing leaves them exactly as the first pass left them.
pub proof fn lemma_pass_idempotent(dirs: Set<Seq<char>>, repos: Seq<RepoModel>)
    ensures
        tree_after_pass(tree_after_pass(dirs, repos), repos) == tree_after_pass(dirs, repos),
{
    assert(tree_after_pass(tree_after_pass(dirs, repos), repos) =~= tree_after_pass(dirs, repos));
}

proof fn lemma_names_of_contains(repos: Seq<RepoModel>, i: int)
    requires
        0 <= i < repos.len(),
    ensures
        names_of(repos).contains(repos[i].name),
    decreases repos.len(),
{
    if i > 0 {
        lemma_names_of_contains(repos.skip(1), i - 1);
        assert(repos.skip(1)[i - 1] == repos[i]);
    }
}

/// Law: after a pass every listed repository's directory exists, so an
/// immediate second pass over the same listing plans an update in place
/// for every repository, never a second clone.
pub proof fn lemma_second_pass_pulls(
    dirs: Set<Seq<char>>,
    repos: Seq<RepoModel>,
    token: Seq<char>,
    i: int,
)
    requires
        0 <= i < repos.len(),
    ensures
        spec_pass_plan(repos, tree_after_pass(dirs, repos), token)[i] == (ActionModel::PullRepo {
            name: repos[i].name,
        }),
{
    lemma_names_of_contains(repos, i);
}

} // verus!
