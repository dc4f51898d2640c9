use vstd::prelude::*;

verus! {

/// ASCII `/`, placed between a parent path and a child name.
pub const SEPARATOR: u8 = 47;

/// A path that this library owns: a heap copy of a directory entry name, or
/// of a parent path joined to one. It is moved, never copied, and its buffer
/// is released once, when its owner goes away.
pub struct OwnedPath {
    bytes: Vec<u8>,
}

/// The path made of `parent`, a separator, and `child`.
pub open spec fn joined(parent: Seq<u8>, child: Seq<u8>) -> Seq<u8> {
    parent + seq![SEPARATOR] + child
}

impl View for OwnedPath {
    type V = Seq<u8>;

    closed spec fn view(&self) -> Seq<u8> {
        self.bytes@
    }
}

/// Copies `src` into a new vector.
fn copy_bytes(src: &[u8]) -> (r: Vec<u8>)
    ensures
        r@ == src@,
{
    let mut out: Vec<u8> = Vec::with_capacity(src.len());
    let mut i: usize = 0;
    while i < src.len()
        invariant
            0 <= i <= src@.len(),
            out@ == src@.subrange(0, i as int),
        decreases src@.len() - i,
    {
        out.push(src[i]);
        i = i + 1;
        assert(out@ =~= src@.subrange(0, i as int));
    }
    assert(out@ =~= src@);
    out
}

impl OwnedPath {
    /// A path of its own holding the bytes of `raw`, which may be a buffer
    /// that is reused right after this call.
    pub fn duplicate(raw: &[u8]) -> (r: OwnedPath)
        ensures
            r@ == raw@,
    {
        OwnedPath { bytes: copy_bytes(raw) }
    }

    /// A new path: `parent`, a separator, then `child`. It shares nothing
    /// with `parent`.
    pub fn compose(parent: &OwnedPath, child: &[u8]) -> (r: OwnedPath)
        ensures
            r@ == joined(parent@, child@),
    {
        let mut bytes = copy_bytes(parent.bytes.as_slice());
        bytes.push(SEPARATOR);
        let mut i: usize = 0;
        let ghost head = bytes@;
        while i < child.len()
            invariant
                0 <= i <= child@.len(),
                head == parent@ + seq![SEPARATOR],
                bytes@ == head + child@.subrange(0, i as int),
            decreases child@.len() - i,
        {
            bytes.push(child[i]);
            i = i + 1;
            assert(bytes@ =~= head + child@.subrange(0, i as int));
        }
        assert(child@.subrange(0, child@.len() as int) =~= child@);
        OwnedPath { bytes }
    }

    /// The bytes of the path, borrowed for no longer than the path lives.
    pub fn as_bytes(&self) -> (r: &[u8])
        ensures
            r@ == self@,
    {
        self.bytes.as_slice()
    }

    /// The number of bytes in the path.
    pub fn len(&self) -> (r: usize)
        ensures
            r == self@.len(),
    {
        self.bytes.len()
    }
}

} // verus!
