//! Trusted bindings to the `git2` object store.  Each function here
//! wraps exactly one `git2` call; Verus believes the stated contracts
//! without reading the bodies.  Results drawn from the repository on
//! disk are never pinned to a value: the verified callers state what
//! holds of every outcome.

use vstd::prelude::*;
use crate::Error;
use crate::ids::ObjectId;
use crate::tree::{EntryKind, TreeEntry};

verus! {

#[verifier::external_type_specification]
#[verifier::external_body]
pub struct ExRepository(git2::Repository);

#[verifier::external_type_specification]
#[verifier::external_body]
pub struct ExBranch<'a>(git2::Branch<'a>);

#[verifier::external_type_specification]
#[verifier::external_body]
pub struct ExReference<'a>(git2::Reference<'a>);

#[verifier::external_type_specification]
#[verifier::external_body]
pub struct ExAnnotatedCommit<'a>(git2::AnnotatedCommit<'a>);

#[verifier::external_type_specification]
#[verifier::external_body]
pub struct ExCommit<'a>(git2::Commit<'a>);

#[verifier::external_type_specification]
#[verifier::external_body]
pub struct ExTree<'a>(git2::Tree<'a>);

#[verifier::external_type_specification]
#[verifier::external_body]
pub struct ExBlob<'a>(git2::Blob<'a>);

#[verifier::external_type_specification]
#[verifier::external_body]
pub struct ExIndex(git2::Index);

#[verifier::external_type_specification]
#[verifier::external_body]
pub struct ExSignature<'a>(git2::Signature<'a>);

/// Relies on git2::Repository::open: opens the repository at `path`;
/// any failure is a store error.
#[verifier::external_body]
pub(crate) fn repo_open(path: &str) -> (r: Result<git2::Repository, Error>)
    ensures
        r matches Err(e) ==> e == Error::Store,
{
    match git2::Repository::open(path) {
        Ok(repo) => Ok(repo),
        Err(_) => Err(Error::Store),
    }
}

/// Relies on git2::Repository::find_branch: resolves a local branch
/// by name; failure means the branch was not found.
#[verifier::external_body]
pub(crate) fn find_branch_local<'r>(repo: &'r git2::Repository, name: &str) -> (r: Result<
    git2::Branch<'r>,
    Error,
>)
    ensures
        r matches Err(e) ==> e == Error::NotFound,
{
    match repo.find_branch(name, git2::BranchType::Local) {
        Ok(b) => Ok(b),
        Err(_) => Err(Error::NotFound),
    }
}

/// Relies on git2::Branch::upstream: resolves the upstream tracking
/// branch; failure means no upstream is configured or found.
#[verifier::external_body]
pub(crate) fn branch_upstream<'r>(b: &git2::Branch<'r>) -> (r: Result<git2::Branch<'r>, Error>)
    ensures
        r matches Err(e) ==> e == Error::NotFound,
{
    match b.upstream() {
        Ok(u) => Ok(u),
        Err(_) => Err(Error::NotFound),
    }
}

/// Relies on git2::Branch::get: borrows the reference underlying a
/// branch.
#[verifier::external_body]
pub(crate) fn branch_reference<'a, 'r>(b: &'a git2::Branch<'r>) -> &'a git2::Reference<'r> {
    b.get()
}

/// Relies on git2::Reference::name: the reference's full name when it
/// is valid text, a decode error otherwise.
#[verifier::external_body]
pub(crate) fn reference_name(r: &git2::Reference) -> (res: Result<String, Error>)
    ensures
        res matches Err(e) ==> e == Error::Decode,
{
    match r.name() {
        Ok(n) => Ok(n.to_owned()),
        Err(_) => Err(Error::Decode),
    }
}

/// Relies on git2::Reference::peel_to_commit: the commit the
/// reference points at; any failure is a store error.
#[verifier::external_body]
pub(crate) fn peel_to_commit<'r>(r: &git2::Reference<'r>) -> (res: Result<git2::Commit<'r>, Error>)
    ensures
        res matches Err(e) ==> e == Error::Store,
{
    match r.peel_to_commit() {
        Ok(c) => Ok(c),
        Err(_) => Err(Error::Store),
    }
}

/// Relies on git2::Repository::reference_to_annotated_commit: wraps
/// the commit a reference points at for merge bookkeeping.
#[verifier::external_body]
pub(crate) fn annotated_commit<'r>(
    repo: &'r git2::Repository,
    r: &git2::Reference<'r>,
) -> (res: Result<git2::AnnotatedCommit<'r>, Error>)
    ensures
        res matches Err(e) ==> e == Error::Store,
{
    match repo.reference_to_annotated_commit(r) {
        Ok(a) => Ok(a),
        Err(_) => Err(Error::Store),
    }
}

/// Relies on git2::Repository::merge_analysis: the raw analysis and
/// preference flag bits for merging `target` into HEAD.
#[verifier::external_body]
pub(crate) fn merge_analysis_bits(
    repo: &git2::Repository,
    target: &git2::AnnotatedCommit,
) -> (r: Result<(u32, u32), Error>)
    ensures
        r matches Err(e) ==> e == Error::Store,
{
    match repo.merge_analysis(&[target]) {
        Ok((analysis, pref)) => Ok((analysis.bits(), pref.bits())),
        Err(_) => Err(Error::Store),
    }
}

/// Relies on git2::Repository::merge: merges `target` into HEAD,
/// mutating the staging index and working directory; writes no
/// permanent object by itself.
#[verifier::external_body]
pub(crate) fn repo_merge(repo: &git2::Repository, target: &git2::AnnotatedCommit) -> (r: Result<
    (),
    Error,
>)
    ensures
        r matches Err(e) ==> e == Error::Store,
{
    match repo.merge(&[target], None, None) {
        Ok(()) => Ok(()),
        Err(_) => Err(Error::Store),
    }
}

/// Relies on git2::Repository::index: the repository's staging index.
#[verifier::external_body]
pub(crate) fn repo_index(repo: &git2::Repository) -> (r: Result<git2::Index, Error>)
    ensures
        r matches Err(e) ==> e == Error::Store,
{
    match repo.index() {
        Ok(ix) => Ok(ix),
        Err(_) => Err(Error::Store),
    }
}

/// Relies on git2::Index::has_conflicts: whether the staging index
/// holds unresolved conflicts.
#[verifier::external_body]
pub(crate) fn index_has_conflicts(ix: &git2::Index) -> bool {
    ix.has_conflicts()
}

/// Relies on git2::Index::write_tree: writes the staging index as a
/// tree object and returns that tree's 20-byte id.
#[verifier::external_body]
pub(crate) fn index_write_tree(ix: &mut git2::Index) -> (r: Result<ObjectId, Error>)
    ensures
        r matches Ok(id) ==> id@.len() == 20,
        r matches Err(e) ==> e == Error::Store,
{
    match ix.write_tree() {
        Ok(oid) => Ok(ObjectId::new(oid.as_bytes().to_vec())),
        Err(_) => Err(Error::Store),
    }
}

/// Relies on git2::Oid::from_bytes and git2::Repository::find_tree:
/// looks a tree object up by its id bytes.
#[verifier::external_body]
pub(crate) fn find_tree<'r>(repo: &'r git2::Repository, id: &ObjectId) -> (r: Result<
    git2::Tree<'r>,
    Error,
>)
    ensures
        r matches Err(e) ==> e == Error::Store,
{
    match git2::Oid::from_bytes(id.as_bytes()) {
        Ok(oid) => match repo.find_tree(oid) {
            Ok(t) => Ok(t),
            Err(_) => Err(Error::Store),
        },
        Err(_) => Err(Error::Store),
    }
}

/// Relies on git2::Tree::id: the 20-byte id naming this tree object.
#[verifier::external_body]
pub(crate) fn tree_oid(t: &git2::Tree) -> (r: ObjectId)
    ensures
        r@.len() == 20,
{
    ObjectId::new(t.id().as_bytes().to_vec())
}

/// Relies on git2::Tree::len: how many entries the tree holds.
#[verifier::external_body]
pub(crate) fn tree_len(t: &git2::Tree) -> usize {
    t.len()
}

/// Relies on git2::Tree::get and the tree-entry accessors
/// (name_bytes, kind, id, filemode): the entry at position `i` as
/// plain values, or nothing past the end.
#[verifier::external_body]
pub(crate) fn tree_entry_at(t: &git2::Tree, i: usize) -> Option<TreeEntry> {
    match t.get(i) {
        None => None,
        Some(e) => Some(
            TreeEntry {
                name: e.name_bytes().to_vec(),
                kind: match e.kind() {
                    Some(git2::ObjectType::Blob) => EntryKind::Blob,
                    Some(git2::ObjectType::Tree) => EntryKind::Tree,
                    _ => EntryKind::Other,
                },
                id: ObjectId::new(e.id().as_bytes().to_vec()),
                filemode: e.filemode(),
            },
        ),
    }
}

/// Relies on git2::Repository::head: the reference HEAD points at;
/// failure is treated as an unborn HEAD.
#[verifier::external_body]
pub(crate) fn repo_head<'r>(repo: &'r git2::Repository) -> (r: Result<git2::Reference<'r>, Error>)
    ensures
        r matches Err(e) ==> e == Error::UnbornHead,
{
    match repo.head() {
        Ok(h) => Ok(h),
        Err(_) => Err(Error::UnbornHead),
    }
}

/// Relies on git2::Repository::signature: the configured author
/// identity, failing when none is configured.
#[verifier::external_body]
pub(crate) fn repo_signature(repo: &git2::Repository) -> (r: Result<
    git2::Signature<'static>,
    Error,
>)
    ensures
        r matches Err(e) ==> e == Error::Store,
{
    match repo.signature() {
        Ok(s) => Ok(s),
        Err(_) => Err(Error::Store),
    }
}

/// Relies on git2::Signature::now: an identity built from the given
/// name and email with the current time.
#[verifier::external_body]
pub(crate) fn signature_now(name: &str, email: &str) -> (r: Result<
    git2::Signature<'static>,
    Error,
>)
    ensures
        r matches Err(e) ==> e == Error::Store,
{
    match git2::Signature::now(name, email) {
        Ok(s) => Ok(s),
        Err(_) => Err(Error::Store),
    }
}

/// Relies on git2::Commit::id: the 20-byte id naming this commit.
#[verifier::external_body]
pub(crate) fn commit_id_of(c: &git2::Commit) -> (r: ObjectId)
    ensures
        r@.len() == 20,
{
    ObjectId::new(c.id().as_bytes().to_vec())
}

/// Relies on git2::Commit::tree: the root tree recorded by a commit.
#[verifier::external_body]
pub(crate) fn commit_tree<'r>(c: &git2::Commit<'r>) -> (r: Result<git2::Tree<'r>, Error>)
    ensures
        r matches Err(e) ==> e == Error::Store,
{
    match c.tree() {
        Ok(t) => Ok(t),
        Err(_) => Err(Error::Store),
    }
}

/// Relies on git2::Oid::from_bytes and git2::Repository::find_commit:
/// looks a commit up by its id bytes; failure means it was not found.
#[verifier::external_body]
pub(crate) fn find_commit<'r>(repo: &'r git2::Repository, id: &ObjectId) -> (r: Result<
    git2::Commit<'r>,
    Error,
>)
    ensures
        r matches Err(e) ==> e == Error::NotFound,
{
    match git2::Oid::from_bytes(id.as_bytes()) {
        Ok(oid) => match repo.find_commit(oid) {
            Ok(c) => Ok(c),
            Err(_) => Err(Error::NotFound),
        },
        Err(_) => Err(Error::NotFound),
    }
}

/// Relies on git2::Repository::commit: writes a commit object with
/// the given tree, message and author, recording the parents in the
/// given order, and points `update_ref` at it; returns the new
/// commit's 20-byte id.
#[verifier::external_body]
pub(crate) fn create_commit<'r>(
    repo: &'r git2::Repository,
    update_ref: &str,
    sig: &git2::Signature<'static>,
    msg: &str,
    tree: &git2::Tree<'r>,
    parents: &Vec<&git2::Commit<'r>>,
) -> (r: Result<ObjectId, Error>)
    ensures
        r matches Ok(id) ==> id@.len() == 20,
        r matches Err(e) ==> e == Error::Store,
{
    match repo.commit(Some(update_ref), sig, sig, msg, tree, parents.as_slice()) {
        Ok(oid) => Ok(ObjectId::new(oid.as_bytes().to_vec())),
        Err(_) => Err(Error::Store),
    }
}

/// Relies on git2::Repository::cleanup_state: clears any in-progress
/// operation marker (for example a pending merge) from the
/// repository.
#[verifier::external_body]
pub(crate) fn cleanup_state(repo: &git2::Repository) -> (r: Result<(), Error>)
    ensures
        r matches Err(e) ==> e == Error::Store,
{
    match repo.cleanup_state() {
        Ok(()) => Ok(()),
        Err(_) => Err(Error::Store),
    }
}

/// Relies on git2::Oid::from_bytes and git2::Repository::find_blob:
/// looks a blob up by its id bytes; failure means it was not found.
#[verifier::external_body]
pub(crate) fn find_blob<'r>(repo: &'r git2::Repository, id: &ObjectId) -> (r: Result<
    git2::Blob<'r>,
    Error,
>)
    ensures
        r matches Err(e) ==> e == Error::NotFound,
{
    match git2::Oid::from_bytes(id.as_bytes()) {
        Ok(oid) => match repo.find_blob(oid) {
            Ok(b) => Ok(b),
            Err(_) => Err(Error::NotFound),
        },
        Err(_) => Err(Error::NotFound),
    }
}

/// Relies on git2::Blob::content: the blob's raw bytes.
#[verifier::external_body]
pub(crate) fn blob_content(b: &git2::Blob) -> Vec<u8> {
    b.content().to_vec()
}

} // verus!
