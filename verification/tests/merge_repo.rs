use gitsync::ids::ObjectId;
use gitsync::merge::merge_upstream_commit;
use gitsync::Error;
use tempfile::TempDir;

fn oid_of(id: &ObjectId) -> git2::Oid {
    git2::Oid::from_bytes(id.as_bytes()).unwrap()
}

fn repo_init_bare() -> (TempDir, git2::Repository) {
    let td = TempDir::new().unwrap();
    let repo = git2::Repository::init_bare(td.path()).unwrap();
    (td, repo)
}

fn repo_clone(url: &str) -> (TempDir, git2::Repository) {
    let td = TempDir::new().unwrap();
    let repo = git2::Repository::clone(url, td.path()).unwrap();
    (td, repo)
}

fn write_commit_file(
    repo: &git2::Repository,
    file: &str,
    content: &str,
    commit_name: &str,
) -> ObjectId {
    let mut index = repo.index().unwrap();
    let entry = git2::IndexEntry {
        ctime: git2::IndexTime::new(0, 0),
        mtime: git2::IndexTime::new(0, 0),
        dev: 0,
        ino: 0,
        mode: 0o100644,
        uid: 0,
        gid: 0,
        file_size: 0,
        id: git2::Oid::zero(),
        flags: 0,
        flags_extended: 0,
        path: file.as_bytes().to_vec(),
    };
    index.add_frombuffer(&entry, content.as_bytes()).unwrap();
    index.write().unwrap();
    let tree_id = index.write_tree().unwrap();
    let tree = repo.find_tree(tree_id).unwrap();
    let sig = git2::Signature::now("testuser", "test@example.com").unwrap();
    let parent = match repo.head() {
        Ok(h) => Some(h.peel_to_commit().unwrap()),
        Err(_) => None,
    };
    let parent_refs: Vec<&git2::Commit> = parent.iter().collect();
    let oid = repo
        .commit(Some("HEAD"), &sig, &sig, commit_name, &tree, &parent_refs)
        .unwrap();
    if !repo.is_bare() {
        let mut co = git2::build::CheckoutBuilder::new();
        co.force();
        repo.checkout_head(Some(&mut co)).unwrap();
    }
    ObjectId::new(oid.as_bytes().to_vec())
}

fn push(repo_path: &str, remote: &str, branch: &str) -> Result<(), git2::Error> {
    let repo = git2::Repository::open(repo_path)?;
    let mut remote = repo.find_remote(remote)?;
    let refspec = format!("refs/heads/{}:refs/heads/{}", branch, branch);
    remote.push(&[refspec.as_str()], None)
}

fn fetch(repo_path: &str, branch: &str) -> usize {
    let repo = git2::Repository::open(repo_path).unwrap();
    let mut remote = repo.find_remote("origin").unwrap();
    remote.fetch(&[branch], None, None).unwrap();
    remote.stats().received_bytes()
}

fn behind_upstream(repo_path: &str, branch: &str) -> usize {
    let repo = git2::Repository::open(repo_path).unwrap();
    let local = repo.find_branch(branch, git2::BranchType::Local).unwrap();
    let upstream = local.upstream().unwrap();
    let local_oid = local.get().peel_to_commit().unwrap().id();
    let upstream_oid = upstream.get().peel_to_commit().unwrap().id();
    let (_ahead, behind) = repo.graph_ahead_behind(local_oid, upstream_oid).unwrap();
    behind
}

// walks history breadth-first from HEAD, parents in recorded order
fn get_commit_ids(repo: &git2::Repository, limit: usize) -> Vec<ObjectId> {
    let head = repo.head().unwrap().peel_to_commit().unwrap();
    let mut seen: Vec<git2::Oid> = vec![head.id()];
    let mut list: Vec<git2::Commit> = vec![head];
    let mut i = 0;
    while i < list.len() {
        let parents: Vec<git2::Commit> = list[i].parents().collect();
        for p in parents {
            if !seen.contains(&p.id()) {
                seen.push(p.id());
                list.push(p);
            }
        }
        i += 1;
    }
    list.iter()
        .take(limit)
        .map(|c| ObjectId::new(c.id().as_bytes().to_vec()))
        .collect()
}

#[test]
fn test_merge_normal() {
    let (r1_dir, _repo) = repo_init_bare();

    let (clone1_dir, clone1) = repo_clone(r1_dir.path().to_str().unwrap());

    let (clone2_dir, clone2) = repo_clone(r1_dir.path().to_str().unwrap());

    let clone2_dir = clone2_dir.path().to_str().unwrap();

    // clone1

    let commit1 = write_commit_file(&clone1, "test.txt", "test", "commit1");

    push(clone1_dir.path().to_str().unwrap(), "origin", "master").unwrap();

    // clone2

    let commit2 = write_commit_file(&clone2, "test2.txt", "test", "commit2");

    //push should fail since origin diverged
    assert!(push(clone2_dir, "origin", "master").is_err());

    //lets fetch from origin
    let bytes = fetch(clone2_dir, "master");
    assert!(bytes > 0);

    //we should be one commit behind
    assert_eq!(behind_upstream(clone2_dir, "master"), 1);

    let merge_commit = merge_upstream_commit(clone2_dir, "master").unwrap().unwrap();

    assert!(matches!(clone2.state(), git2::RepositoryState::Clean));

    assert!(!clone2.head_detached().unwrap());

    let commits = get_commit_ids(&clone2, 10);
    assert_eq!(commits.len(), 3);
    assert_eq!(commits[0], merge_commit);
    assert_eq!(commits[1], commit2);
    assert_eq!(commits[2], commit1);

    //verify commit msg
    let details = clone2.find_commit(oid_of(&merge_commit)).unwrap();
    assert_eq!(
        details.message().unwrap(),
        "Merge remote-tracking branch 'refs/remotes/origin/master'"
    );
}

#[test]
fn test_merge_normal_non_ff() {
    let (r1_dir, _repo) = repo_init_bare();

    let (clone1_dir, clone1) = repo_clone(r1_dir.path().to_str().unwrap());

    let (clone2_dir, clone2) = repo_clone(r1_dir.path().to_str().unwrap());

    // clone1

    write_commit_file(&clone1, "test.bin", "test\nfooo", "commit1");

    push(clone1_dir.path().to_str().unwrap(), "origin", "master").unwrap();

    // clone2

    write_commit_file(&clone2, "test.bin", "foobar\ntest", "commit2");

    let bytes = fetch(clone2_dir.path().to_str().unwrap(), "master");
    assert!(bytes > 0);

    let res = merge_upstream_commit(clone2_dir.path().to_str().unwrap(), "master").unwrap();

    //this should not have commited cause we left conflicts behind
    assert_eq!(res, None);

    //validate the repo is in a merge state now
    assert!(matches!(clone2.state(), git2::RepositoryState::Merge));

    //check that we still only have the first commit
    let commits = get_commit_ids(&clone1, 10);
    assert_eq!(commits.len(), 1);
}

#[test]
fn test_merge_fast_forward_only_policy_refuses() {
    let (r1_dir, _repo) = repo_init_bare();

    let (clone1_dir, clone1) = repo_clone(r1_dir.path().to_str().unwrap());

    write_commit_file(&clone1, "base.txt", "base", "base");
    push(clone1_dir.path().to_str().unwrap(), "origin", "master").unwrap();

    let (clone2_dir, clone2) = repo_clone(r1_dir.path().to_str().unwrap());
    let clone2_dir = clone2_dir.path().to_str().unwrap();

    write_commit_file(&clone1, "more.txt", "more", "ahead");
    push(clone1_dir.path().to_str().unwrap(), "origin", "master").unwrap();

    let bytes = fetch(clone2_dir, "master");
    assert!(bytes > 0);

    clone2.config().unwrap().set_str("merge.ff", "only").unwrap();

    assert_eq!(merge_upstream_commit(clone2_dir, "master"), Err(Error::WouldFastForward));
}

#[test]
fn test_merge_fast_forward_eligible_parents_order() {
    let (r1_dir, _repo) = repo_init_bare();

    let (clone1_dir, clone1) = repo_clone(r1_dir.path().to_str().unwrap());

    let commit1 = write_commit_file(&clone1, "base.txt", "base", "base");
    push(clone1_dir.path().to_str().unwrap(), "origin", "master").unwrap();

    let (clone2_dir, clone2) = repo_clone(r1_dir.path().to_str().unwrap());
    let clone2_dir = clone2_dir.path().to_str().unwrap();

    let commit2 = write_commit_file(&clone1, "more.txt", "more", "ahead");
    push(clone1_dir.path().to_str().unwrap(), "origin", "master").unwrap();

    let bytes = fetch(clone2_dir, "master");
    assert!(bytes > 0);

    let merge_commit = merge_upstream_commit(clone2_dir, "master").unwrap().unwrap();

    let details = clone2.find_commit(oid_of(&merge_commit)).unwrap();
    let parents: Vec<git2::Oid> = details.parent_ids().collect();
    assert_eq!(parents.len(), 2);
    assert_eq!(parents[0], oid_of(&commit1));
    assert_eq!(parents[1], oid_of(&commit2));
}

#[test]
fn test_merge_up_to_date_not_possible() {
    let (r1_dir, _repo) = repo_init_bare();

    let (clone1_dir, clone1) = repo_clone(r1_dir.path().to_str().unwrap());

    write_commit_file(&clone1, "base.txt", "base", "base");
    push(clone1_dir.path().to_str().unwrap(), "origin", "master").unwrap();

    let (clone2_dir, _clone2) = repo_clone(r1_dir.path().to_str().unwrap());
    let clone2_dir = clone2_dir.path().to_str().unwrap();

    assert_eq!(merge_upstream_commit(clone2_dir, "master"), Err(Error::MergeNotPossible));
}

#[test]
fn test_merge_missing_branch_not_found() {
    let (r1_dir, _repo) = repo_init_bare();

    let (clone1_dir, clone1) = repo_clone(r1_dir.path().to_str().unwrap());
    write_commit_file(&clone1, "base.txt", "base", "base");

    let res = merge_upstream_commit(clone1_dir.path().to_str().unwrap(), "nosuch");
    assert_eq!(res, Err(Error::NotFound));
}

#[test]
fn test_commit_merge_unborn_head() {
    let td = TempDir::new().unwrap();
    let repo = git2::Repository::init(td.path()).unwrap();

    let no_parents: Vec<git2::Commit> = Vec::new();
    let res = gitsync::merge::commit_merge_with_head(&repo, &no_parents, "msg");
    assert_eq!(res, Err(Error::UnbornHead));
}

#[test]
fn test_merge_missing_upstream_not_found() {
    let td = TempDir::new().unwrap();
    let repo = git2::Repository::init(td.path()).unwrap();
    write_commit_file(&repo, "base.txt", "base", "base");

    let res = merge_upstream_commit(td.path().to_str().unwrap(), "master");
    assert_eq!(res, Err(Error::NotFound));
}
