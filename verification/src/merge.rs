//! Merging the configured upstream into the current branch with a
//! merge commit.

use vstd::prelude::*;
use vstd::string::*;
use crate::Error;
use crate::analysis::{decode_analysis, decode_preference, merge_decision, MergeDecision};
use crate::ids::ObjectId;
use crate::store;

verus! {

/// The fixed message of a merge commit, referencing the upstream
/// ref's full name.
pub open spec fn merge_message_spec(upstream_ref: Seq<char>) -> Seq<char> {
    "Merge remote-tracking branch '"@ + upstream_ref + "'"@
}

/// Builds the fixed merge commit message for an upstream ref name.
pub fn merge_message(upstream_ref: &str) -> (r: String)
    ensures
        r@ == merge_message_spec(upstream_ref@),
{
    let mut r = String::from_str("Merge remote-tracking branch '");
    r.append(upstream_ref);
    r.append("'");
    r
}

/// Law: the parent list of a merge commit is the current HEAD commit
/// first, then the other parents exactly in their given order.
fn with_head_first<'a, 'r>(
    head: &'a git2::Commit<'r>,
    commits: &'a Vec<git2::Commit<'r>>,
) -> (r: Vec<&'a git2::Commit<'r>>)
    ensures
        r@.len() == 1 + commits@.len(),
        r@[0] == head,
        forall|j: int| 0 <= j < commits@.len() ==> r@[j + 1] == commits@[j],
{
    let mut parents: Vec<&git2::Commit<'r>> = Vec::new();
    parents.push(head);
    let mut i: usize = 0;
    while i < commits.len()
        invariant
            i <= commits@.len(),
            parents@.len() == 1 + i,
            parents@[0] == head,
            forall|j: int| 0 <= j < i ==> parents@[j + 1] == commits@[j],
        decreases commits@.len() - i,
    {
        parents.push(&commits[i]);
        i = i + 1;
    }
    parents
}

/// Writes the staging index as a tree and commits it onto HEAD, with
/// the current HEAD commit as first parent followed by `commits` in
/// their given order, then clears the repository's in-progress
/// operation state.  The author identity falls back to a placeholder
/// when none is configured.
pub fn commit_merge_with_head<'r>(
    repo: &'r git2::Repository,
    commits: &Vec<git2::Commit<'r>>,
    msg: &str,
) -> (r: Result<ObjectId, Error>)
    ensures
        r matches Ok(id) ==> id@.len() == 20,
        r matches Err(e) ==> (e == Error::Store || e == Error::UnbornHead),
{
    let sig = match store::repo_signature(repo) {
        Ok(s) => s,
        Err(_) => match store::signature_now("unknown", "unknown") {
            Ok(s) => s,
            Err(e) => {
                return Err(e);
            },
        },
    };
    let mut index = match store::repo_index(repo) {
        Ok(ix) => ix,
        Err(e) => {
            return Err(e);
        },
    };
    let tree_id = match store::index_write_tree(&mut index) {
        Ok(id) => id,
        Err(e) => {
            return Err(e);
        },
    };
    let tree = match store::find_tree(repo, &tree_id) {
        Ok(t) => t,
        Err(e) => {
            return Err(e);
        },
    };
    let head_ref = match store::repo_head(repo) {
        Ok(h) => h,
        Err(e) => {
            return Err(e);
        },
    };
    let head_commit = match store::peel_to_commit(&head_ref) {
        Ok(c) => c,
        Err(e) => {
            return Err(e);
        },
    };
    let parents = with_head_first(&head_commit, commits);
    let id = match store::create_commit(repo, "HEAD", &sig, msg, &tree, &parents) {
        Ok(id) => id,
        Err(e) => {
            return Err(e);
        },
    };
    match store::cleanup_state(repo) {
        Ok(()) => Ok(id),
        Err(e) => Err(e),
    }
}

/// Merges the configured upstream of `branch_name` into it.  Only a
/// normal merge is performed: anything else is refused per the
/// decision table of `merge_decision_spec`.  A clean merge is
/// committed with HEAD and the upstream commit as parents, in that
/// order, under the fixed merge message, and the new commit's id is
/// returned.  A conflicted merge commits nothing, leaves the
/// repository in its merge-in-progress state, and returns no id —
/// the designed signal that conflict resolution is required.
pub fn merge_upstream_commit(repo_path: &str, branch_name: &str) -> (r: Result<
    Option<ObjectId>,
    Error,
>)
    ensures
        r matches Ok(Some(id)) ==> id@.len() == 20,
{
    let repo = match store::repo_open(repo_path) {
        Ok(repo) => repo,
        Err(e) => {
            return Err(e);
        },
    };
    let branch = match store::find_branch_local(&repo, branch_name) {
        Ok(b) => b,
        Err(e) => {
            return Err(e);
        },
    };
    let upstream = match store::branch_upstream(&branch) {
        Ok(u) => u,
        Err(e) => {
            return Err(e);
        },
    };
    let upstream_ref = store::branch_reference(&upstream);
    let upstream_commit = match store::peel_to_commit(upstream_ref) {
        Ok(c) => c,
        Err(e) => {
            return Err(e);
        },
    };
    let upstream_ref_name = match store::reference_name(upstream_ref) {
        Ok(n) => n,
        Err(e) => {
            return Err(e);
        },
    };
    let annotated = match store::annotated_commit(&repo, upstream_ref) {
        Ok(a) => a,
        Err(e) => {
            return Err(e);
        },
    };
    let (analysis_bits, preference_bits) = match store::merge_analysis_bits(&repo, &annotated) {
        Ok(bits) => bits,
        Err(e) => {
            return Err(e);
        },
    };
    let analysis = decode_analysis(analysis_bits);
    let preference = decode_preference(preference_bits);
    match merge_decision(&analysis, &preference) {
        MergeDecision::NotNormal => Err(Error::MergeNotPossible),
        MergeDecision::WouldFastForward => Err(Error::WouldFastForward),
        MergeDecision::Unborn => Err(Error::UnbornHead),
        MergeDecision::Proceed => {
            match store::repo_merge(&repo, &annotated) {
                Ok(()) => {},
                Err(e) => {
                    return Err(e);
                },
            }
            let index = match store::repo_index(&repo) {
                Ok(ix) => ix,
                Err(e) => {
                    return Err(e);
                },
            };
            if !store::index_has_conflicts(&index) {
                let msg = merge_message(upstream_ref_name.as_str());
                let mut commits: Vec<git2::Commit> = Vec::new();
                commits.push(upstream_commit);
                match commit_merge_with_head(&repo, &commits, msg.as_str()) {
                    Ok(id) => Ok(Some(id)),
                    Err(e) => Err(e),
                }
            } else {
                Ok(None)
            }
        },
    }
}

} // verus!
