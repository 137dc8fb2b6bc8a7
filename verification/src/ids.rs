//! Content-addressed object ids.

use vstd::prelude::*;

verus! {

/// A content hash naming one object in the store.  Identical content
/// always yields the same id, and equality of ids is equality of the
/// underlying hash bytes.
#[derive(Debug, PartialEq, Eq)]
pub struct ObjectId {
    bytes: Vec<u8>,
}

impl View for ObjectId {
    type V = Seq<u8>;

    closed spec fn view(&self) -> Seq<u8> {
        self.bytes@
    }
}

/// Copies a byte vector element by element.
fn copy_bytes(v: &Vec<u8>) -> (r: Vec<u8>)
    ensures
        r@ == v@,
{
    let mut out: Vec<u8> = Vec::new();
    let mut i: usize = 0;
    while i < v.len()
        invariant
            i <= v.len(),
            out@ == v@.take(i as int),
        decreases v.len() - i,
    {
        out.push(v[i]);
        proof {
            assert(v@.take(i + 1 as int) =~= v@.take(i as int).push(v@[i as int]));
        }
        i = i + 1;
    }
    proof {
        assert(v@.take(v@.len() as int) =~= v@);
    }
    out
}

/// Compares two byte vectors element by element.
fn bytes_equal(a: &Vec<u8>, b: &Vec<u8>) -> (r: bool)
    ensures
        r == (a@ == b@),
{
    if a.len() != b.len() {
        return false;
    }
    let mut i: usize = 0;
    while i < a.len()
        invariant
            i <= a.len(),
            a@.len() == b@.len(),
            forall|j: int| 0 <= j < i ==> a@[j] == b@[j],
        decreases a.len() - i,
    {
        if a[i] != b[i] {
            return false;
        }
        i = i + 1;
    }
    proof {
        assert(a@ =~= b@);
    }
    true
}

impl ObjectId {
    /// Wraps raw hash bytes as an id.
    pub fn new(bytes: Vec<u8>) -> (r: ObjectId)
        ensures
            r@ == bytes@,
    {
        ObjectId { bytes }
    }

    /// The raw hash bytes of this id.
    pub fn as_bytes(&self) -> (r: &Vec<u8>)
        ensures
            r@ == self@,
    {
        &self.bytes
    }

    /// An independent copy of this id, naming the same object.
    pub fn duplicate(&self) -> (r: ObjectId)
        ensures
            r@ == self@,
    {
        ObjectId { bytes: copy_bytes(&self.bytes) }
    }

    /// Whether this id and `other` name the same object.
    pub fn same(&self, other: &ObjectId) -> (r: bool)
        ensures
            r == (self@ == other@),
    {
        bytes_equal(&self.bytes, &other.bytes)
    }
}

} // verus!
