//! The tree snapshot extractor: flattening the tree of a commit into
//! a path-ordered file list, and fetching one file's text content.

use vstd::prelude::*;
use vstd::string::*;
use crate::Error;
use crate::ids::ObjectId;
use crate::text::utf8_decode;

verus! {

/// What one directory-level entry of a tree object points at.
#[derive(Debug, Clone, Copy, PartialEq, Eq, Structural)]
pub enum EntryKind {
    /// File content, a leaf.
    Blob,
    /// A nested tree.
    Tree,
    /// Anything else (for example a submodule link); skipped.
    Other,
}

/// One entry of a tree object, as the store records it: a name local
/// to its directory, the kind of object it points at, that object's
/// id, and the entry's file mode.
#[derive(Debug, PartialEq)]
pub struct TreeEntry {
    /// The entry's name bytes within its directory.
    pub name: Vec<u8>,
    /// What the entry points at.
    pub kind: EntryKind,
    /// The id of the object pointed at.
    pub id: ObjectId,
    /// The entry's file mode bits.
    pub filemode: i32,
}

/// The mathematical value of one tree entry.
pub ghost struct TreeEntryV {
    /// The entry's name bytes.
    pub name: Seq<u8>,
    /// What the entry points at.
    pub kind: EntryKind,
    /// The id of the object pointed at.
    pub id: Seq<u8>,
    /// The entry's file mode bits.
    pub filemode: i32,
}

impl View for TreeEntry {
    type V = TreeEntryV;

    open spec fn view(&self) -> TreeEntryV {
        TreeEntryV { name: self.name@, kind: self.kind, id: self.id@, filemode: self.filemode }
    }
}

/// One file of a commit's snapshot: a blob entry flattened to its
/// full repository-relative path, file mode, and blob id.
#[derive(Debug, PartialEq)]
pub struct TreeFile {
    /// Repository-relative path of this file.
    pub path: String,
    /// Unix file mode bits.
    pub filemode: i32,
    id: ObjectId,
}

/// The mathematical value of one snapshot file.
pub ghost struct TreeFileV {
    /// Repository-relative path.
    pub path: Seq<char>,
    /// Unix file mode bits.
    pub filemode: i32,
    /// The id of the blob holding the content.
    pub id: Seq<u8>,
}

impl View for TreeFile {
    type V = TreeFileV;

    closed spec fn view(&self) -> TreeFileV {
        TreeFileV { path: self.path@, filemode: self.filemode, id: self.id@ }
    }
}

impl TreeFile {
    /// The id of the blob holding this file's content.
    pub fn blob_id(&self) -> (r: &ObjectId)
        ensures
            r@ == self@.id,
    {
        &self.id
    }
}

/// A loaded set of tree objects, each its id with its entries in
/// stored order.
pub type TreeStore = Vec<(ObjectId, Vec<TreeEntry>)>;

/// The views of a sequence of tree entries.
pub open spec fn entry_views(s: Seq<TreeEntry>) -> Seq<TreeEntryV> {
    s.map_values(|e: TreeEntry| e@)
}

/// The views of a sequence of snapshot files.
pub open spec fn file_views(s: Seq<TreeFile>) -> Seq<TreeFileV> {
    s.map_values(|f: TreeFile| f@)
}

/// The entries recorded for the first tree in `s` whose id is `id`.
pub open spec fn lookup(s: Seq<(ObjectId, Vec<TreeEntry>)>, id: Seq<u8>) -> Option<
    Seq<TreeEntryV>,
>
    decreases s.len(),
{
    if s.len() == 0 {
        None
    } else if s[0].0@ == id {
        Some(entry_views(s[0].1@))
    } else {
        lookup(s.drop_first(), id)
    }
}

/// A path joined from a directory prefix and an entry name.
pub open spec fn join_path_spec(prefix: Seq<char>, name: Seq<char>) -> Seq<char> {
    prefix + seq!['/'] + name
}

/// Joins a directory prefix and an entry name with a separator.
pub fn join_path(prefix: &String, name: &str) -> (r: String)
    ensures
        r@ == join_path_spec(prefix@, name@),
{
    let mut r = String::from_str(prefix.as_str());
    r.append("/");
    r.append(name);
    proof {
        reveal_strlit("/");
        assert(r@ =~= join_path_spec(prefix@, name@));
    }
    r
}

/// The depth-first, pre-order flattening of `entries` under `prefix`,
/// resolving subtrees in `store`: blob entries are listed in stored
/// order, each subtree's files are listed fully before the next
/// sibling, and other entries are skipped.  An entry name that is not
/// valid text fails the whole walk with a decode error; a subtree
/// missing from the store, or nesting deeper than `fuel`, fails it
/// with a store error.
pub open spec fn flatten_spec(
    store: Seq<(ObjectId, Vec<TreeEntry>)>,
    prefix: Seq<char>,
    entries: Seq<TreeEntryV>,
    fuel: nat,
) -> Result<Seq<TreeFileV>, Error>
    decreases fuel, entries.len(),
{
    if entries.len() == 0 {
        Ok(Seq::empty())
    } else {
        let e = entries[0];
        let rest = entries.drop_first();
        match utf8_decode(e.name) {
            None => Err(Error::Decode),
            Some(name) => {
                let path = join_path_spec(prefix, name);
                if e.kind == EntryKind::Blob {
                    match flatten_spec(store, prefix, rest, fuel) {
                        Ok(tail) => Ok(
                            seq![TreeFileV { path, filemode: e.filemode, id: e.id }] + tail,
                        ),
                        Err(err) => Err(err),
                    }
                } else if e.kind == EntryKind::Tree {
                    if fuel == 0 {
                        Err(Error::Store)
                    } else {
                        match lookup(store, e.id) {
                            None => Err(Error::Store),
                            Some(sub_entries) => match flatten_spec(
                                store,
                                path,
                                sub_entries,
                                (fuel - 1) as nat,
                            ) {
                                Ok(sub) => match flatten_spec(store, prefix, rest, fuel) {
                                    Ok(tail) => Ok(sub + tail),
                                    Err(err) => Err(err),
                                },
                                Err(err) => Err(err),
                            },
                        }
                    }
                } else {
                    flatten_spec(store, prefix, rest, fuel)
                }
            },
        }
    }
}

/// Law: a tree of blob entries alone (a flat directory) flattens to
/// exactly one file per entry, in stored order: the file at each
/// position keeps that entry's blob id and file mode, and its path
/// is the prefix joined with that entry's decoded name.
pub proof fn lemma_flat_tree_order(
    store: Seq<(ObjectId, Vec<TreeEntry>)>,
    prefix: Seq<char>,
    entries: Seq<TreeEntryV>,
    fuel: nat,
)
    requires
        forall|i: int| 0 <= i < entries.len() ==> (#[trigger] entries[i]).kind == EntryKind::Blob,
        forall|i: int| 0 <= i < entries.len() ==> utf8_decode((#[trigger] entries[i]).name)
            is Some,
    ensures
        flatten_spec(store, prefix, entries, fuel) matches Ok(fs) && fs.len() == entries.len()
            && (forall|i: int| 0 <= i < entries.len() ==> (#[trigger] fs[i]).id == entries[i].id
                && fs[i].filemode == entries[i].filemode && (utf8_decode(entries[i].name)
                matches Some(n) && fs[i].path == join_path_spec(prefix, n))),
    decreases entries.len(),
{
    if entries.len() == 0 {
    } else {
        let e = entries[0];
        let rest = entries.drop_first();
        assert(forall|i: int| 0 <= i < rest.len() ==> rest[i] == entries[i + 1]);
        lemma_flat_tree_order(store, prefix, rest, fuel);
    }
}

/// A failed flattening fails with a decode error (an entry name that
/// is not valid text) or a store error (a missing subtree or
/// exhausted depth), and nothing else.
pub proof fn lemma_flatten_error(
    store: Seq<(ObjectId, Vec<TreeEntry>)>,
    prefix: Seq<char>,
    entries: Seq<TreeEntryV>,
    fuel: nat,
)
    ensures
        flatten_spec(store, prefix, entries, fuel) matches Err(e) ==> (e == Error::Decode || e
            == Error::Store),
    decreases fuel, entries.len(),
{
    if entries.len() == 0 {
    } else {
        let e = entries[0];
        let rest = entries.drop_first();
        match utf8_decode(e.name) {
            None => {},
            Some(name) => {
                let path = join_path_spec(prefix, name);
                lemma_flatten_error(store, prefix, rest, fuel);
                if e.kind == EntryKind::Tree && fuel > 0 {
                    match lookup(store, e.id) {
                        None => {},
                        Some(sub_entries) => {
                            lemma_flatten_error(store, path, sub_entries, (fuel - 1) as nat);
                        },
                    }
                }
            },
        }
    }
}

/// Finds a tree by id in a loaded store.
pub fn store_get<'a>(store: &'a TreeStore, id: &ObjectId) -> (r: Option<&'a Vec<TreeEntry>>)
    ensures
        (match lookup(store@, id@) {
            Some(es) => r matches Some(v) && entry_views(v@) == es,
            None => r is None,
        }),
{
    let mut i: usize = 0;
    proof {
        assert(store@.skip(0) =~= store@);
    }
    while i < store.len()
        invariant
            i <= store.len(),
            lookup(store@, id@) == lookup(store@.skip(i as int), id@),
        decreases store.len() - i,
    {
        proof {
            assert(store@.skip(i as int)[0] == store@[i as int]);
            assert(store@.skip(i as int).drop_first() =~= store@.skip(i + 1 as int));
        }
        if store[i].0.same(id) {
            return Some(&store[i].1);
        }
        i = i + 1;
    }
    proof {
        assert(store@.skip(store@.len() as int) =~= Seq::<(ObjectId, Vec<TreeEntry>)>::empty());
    }
    None
}

/// Flattens `entries[i..]` under `prefix`, resolving subtrees in
/// `store`, exactly as `flatten_spec` states.
fn flatten_entries(
    store: &TreeStore,
    prefix: &String,
    entries: &Vec<TreeEntry>,
    i: usize,
    fuel: usize,
) -> (r: Result<Vec<TreeFile>, Error>)
    requires
        i <= entries@.len(),
    ensures
        (match flatten_spec(store@, prefix@, entry_views(entries@).skip(i as int), fuel as nat) {
            Ok(fs) => r matches Ok(v) && file_views(v@) == fs,
            Err(e) => r matches Err(e2) && e2 == e,
        }),
    decreases fuel, entries@.len() - i,
{
    let ghost todo = entry_views(entries@).skip(i as int);
    if i == entries.len() {
        proof {
            assert(todo =~= Seq::<TreeEntryV>::empty());
            assert(file_views(Seq::<TreeFile>::empty()) =~= Seq::<TreeFileV>::empty());
        }
        return Ok(Vec::new());
    }
    proof {
        assert(todo[0] == entries@[i as int]@);
        assert(todo.drop_first() =~= entry_views(entries@).skip(i + 1 as int));
    }
    let e = &entries[i];
    let name = match crate::text::decode_text(&e.name) {
        Ok(n) => n,
        Err(err) => {
            return Err(err);
        },
    };
    let path = join_path(prefix, name.as_str());
    match e.kind {
        EntryKind::Blob => {
            match flatten_entries(store, prefix, entries, i + 1, fuel) {
                Ok(mut tail) => {
                    let file = TreeFile { path, filemode: e.filemode, id: e.id.duplicate() };
                    let ghost filev = file@;
                    let ghost tailv = file_views(tail@);
                    let mut out: Vec<TreeFile> = Vec::new();
                    out.push(file);
                    out.append(&mut tail);
                    proof {
                        assert(filev == (TreeFileV {
                            path: join_path_spec(prefix@, name@),
                            filemode: e.filemode,
                            id: e.id@,
                        }));
                        assert(file_views(out@) =~= seq![filev] + tailv);
                    }
                    Ok(out)
                },
                Err(err) => Err(err),
            }
        },
        EntryKind::Tree => {
            if fuel == 0 {
                return Err(Error::Store);
            }
            match store_get(store, &e.id) {
                None => Err(Error::Store),
                Some(sub_entries) => {
                    let sub = match flatten_entries(store, &path, sub_entries, 0, fuel - 1) {
                        Ok(v) => v,
                        Err(err) => {
                            proof {
                                assert(entry_views(sub_entries@).skip(0) =~= entry_views(
                                    sub_entries@,
                                ));
                            }
                            return Err(err);
                        },
                    };
                    proof {
                        assert(entry_views(sub_entries@).skip(0) =~= entry_views(sub_entries@));
                    }
                    match flatten_entries(store, prefix, entries, i + 1, fuel) {
                        Ok(mut tail) => {
                            let mut out = sub;
                            proof {
                                let subv = file_views(out@);
                                let tailv = file_views(tail@);
                                assert(file_views(out@ + tail@) =~= subv + tailv);
                            }
                            out.append(&mut tail);
                            Ok(out)
                        },
                        Err(err) => Err(err),
                    }
                },
            }
        },
        EntryKind::Other => flatten_entries(store, prefix, entries, i + 1, fuel),
    }
}

/// The flat, path-ordered file list of the tree named `root`, drawn
/// from a loaded store: a depth-first, pre-order walk starting at
/// `root` under the prefix ".".
pub open spec fn snapshot_spec(store: Seq<(ObjectId, Vec<TreeEntry>)>, root: Seq<u8>) -> Result<
    Seq<TreeFileV>,
    Error,
> {
    match lookup(store, root) {
        None => Err(Error::Store),
        Some(es) => flatten_spec(store, "."@, es, store.len() as nat),
    }
}

/// Lists the files of the tree named `root` in a loaded store, in
/// depth-first pre-order, exactly as `snapshot_spec` states.
pub fn snapshot(store: &TreeStore, root: &ObjectId) -> (r: Result<Vec<TreeFile>, Error>)
    ensures
        (match snapshot_spec(store@, root@) {
            Ok(fs) => r matches Ok(v) && file_views(v@) == fs,
            Err(e) => r matches Err(e2) && e2 == e,
        }),
{
    match store_get(store, root) {
        None => Err(Error::Store),
        Some(es) => {
            let prefix = String::from_str(".");
            proof {
                assert(entry_views(es@).skip(0) =~= entry_views(es@));
            }
            flatten_entries(store, &prefix, es, 0, store.len())
        },
    }
}

/// Law: when the root tree holds only blob entries with text names
/// (a flat directory of files), its snapshot lists exactly one file
/// per entry, in the stored order, each keeping its entry's blob id
/// and file mode.
pub proof fn lemma_snapshot_flat_order(store: Seq<(ObjectId, Vec<TreeEntry>)>, root: Seq<u8>)
    requires
        lookup(store, root) is Some,
        forall|i: int| 0 <= i < lookup(store, root).unwrap().len() ==> (#[trigger] lookup(
            store,
            root,
        ).unwrap()[i]).kind == EntryKind::Blob,
        forall|i: int| 0 <= i < lookup(store, root).unwrap().len() ==> utf8_decode(
            (#[trigger] lookup(store, root).unwrap()[i]).name,
        ) is Some,
    ensures
        snapshot_spec(store, root) matches Ok(fs) && fs.len() == lookup(store, root).unwrap().len()
            && (forall|i: int|
            0 <= i < fs.len() ==> (#[trigger] fs[i]).id == lookup(store, root).unwrap()[i].id),
{
    let es = lookup(store, root).unwrap();
    lemma_flat_tree_order(store, "."@, es, store.len() as nat);
}

/// Law: the snapshot of a root tree is a function of the loaded
/// store and root id alone, so re-running it over the same store
/// yields the identical file list.
pub proof fn lemma_snapshot_repeatable(
    store: Seq<(ObjectId, Vec<TreeEntry>)>,
    root: Seq<u8>,
    v1: Seq<TreeFileV>,
    v2: Seq<TreeFileV>,
)
    requires
        snapshot_spec(store, root) == Ok::<Seq<TreeFileV>, Error>(v1),
        snapshot_spec(store, root) == Ok::<Seq<TreeFileV>, Error>(v2),
    ensures
        v1 == v2,
{
}

/// Reads all entries of one tree object, in stored order.
fn read_entries(t: &git2::Tree) -> (r: Result<Vec<TreeEntry>, Error>)
    ensures
        r matches Err(e) ==> e == Error::Store,
{
    let n = crate::store::tree_len(t);
    let mut out: Vec<TreeEntry> = Vec::new();
    let mut i: usize = 0;
    while i < n
        decreases n - i,
    {
        match crate::store::tree_entry_at(t, i) {
            Some(e) => out.push(e),
            None => {
                return Err(Error::Store);
            },
        }
        i = i + 1;
    }
    Ok(out)
}

/// Queues the id of every subtree entry for loading.
fn queue_subtrees(entries: &Vec<TreeEntry>, pending: &mut Vec<ObjectId>) {
    let n = entries.len();
    let mut i: usize = 0;
    while i < n
        invariant
            n == entries@.len(),
        decreases n - i,
    {
        let e = &entries[i];
        if matches!(e.kind, EntryKind::Tree) {
            pending.push(e.id.duplicate());
        }
        i = i + 1;
    }
}

/// Loads the closure of tree objects reachable from `root` into a
/// store, each id once, the root first.
fn load_store<'r>(repo: &'r git2::Repository, root: &git2::Tree<'r>) -> (r: Result<
    TreeStore,
    Error,
>)
    ensures
        r matches Err(e) ==> e == Error::Store,
{
    let root_id = crate::store::tree_oid(root);
    let root_entries = match read_entries(root) {
        Ok(es) => es,
        Err(e) => {
            return Err(e);
        },
    };
    let mut pending: Vec<ObjectId> = Vec::new();
    queue_subtrees(&root_entries, &mut pending);
    let mut store: TreeStore = Vec::new();
    store.push((root_id, root_entries));
    // the store's id graph is acyclic, so the worklist empties; the
    // budget only bounds the loop where that cannot be proved here
    let mut budget: usize = usize::MAX;
    while pending.len() > 0 && budget > 0
        decreases budget,
    {
        budget = budget - 1;
        let id = match pending.pop() {
            Some(id) => id,
            None => {
                return Err(Error::Store);
            },
        };
        if store_get(&store, &id).is_some() {
            continue ;
        }
        let t = match crate::store::find_tree(repo, &id) {
            Ok(t) => t,
            Err(e) => {
                return Err(e);
            },
        };
        let entries = match read_entries(&t) {
            Ok(es) => es,
            Err(e) => {
                return Err(e);
            },
        };
        queue_subtrees(&entries, &mut pending);
        store.push((id, entries));
    }
    if pending.len() > 0 {
        return Err(Error::Store);
    }
    Ok(store)
}

/// Lists the files recorded by the tree of `commit`: its root tree is
/// loaded with every subtree it reaches and flattened depth-first in
/// pre-order, exactly as `snapshot_spec` states for the loaded store.
pub fn tree_files(repo_path: &str, commit: &ObjectId) -> (r: Result<Vec<TreeFile>, Error>)
    ensures
        r matches Err(e) ==> (e == Error::Store || e == Error::NotFound || e == Error::Decode),
{
    let repo = match crate::store::repo_open(repo_path) {
        Ok(repo) => repo,
        Err(e) => {
            return Err(e);
        },
    };
    let commit = match crate::store::find_commit(&repo, commit) {
        Ok(c) => c,
        Err(e) => {
            return Err(e);
        },
    };
    let tree = match crate::store::commit_tree(&commit) {
        Ok(t) => t,
        Err(e) => {
            return Err(e);
        },
    };
    let store = match load_store(&repo, &tree) {
        Ok(s) => s,
        Err(e) => {
            return Err(e);
        },
    };
    let root_id = crate::store::tree_oid(&tree);
    match snapshot(&store, &root_id) {
        Ok(files) => Ok(files),
        Err(e) => {
            proof {
                match lookup(store@, root_id@) {
                    None => {},
                    Some(es) => {
                        lemma_flatten_error(store@, "."@, es, store@.len() as nat);
                    },
                }
            }
            Err(e)
        },
    }
}

/// Fetches the content of one listed file by its blob id and decodes
/// it as text, failing with a decode error exactly when the bytes are
/// not valid UTF-8.
pub fn tree_file_content(repo_path: &str, file: &TreeFile) -> (r: Result<String, Error>)
    ensures
        r matches Err(e) ==> (e == Error::Store || e == Error::NotFound || e == Error::Decode),
{
    let repo = match crate::store::repo_open(repo_path) {
        Ok(repo) => repo,
        Err(e) => {
            return Err(e);
        },
    };
    let blob = match crate::store::find_blob(&repo, file.blob_id()) {
        Ok(b) => b,
        Err(e) => {
            return Err(e);
        },
    };
    let bytes = crate::store::blob_content(&blob);
    crate::text::decode_text(&bytes)
}

} // verus!
