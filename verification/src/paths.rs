use vstd::prelude::*;

verus! {

/// The byte that separates path segments in the virtual filesystem's
/// normalized paths.
pub const SLASH: u8 = 47;

/// A normalized path in the virtual filesystem of the surrounding bundling
/// pipeline. Only its textual content matters to this library: every
/// predicate compares paths byte for byte and never consults a real
/// filesystem, so any path handed in must already be resolved.
#[derive(Debug, PartialEq, Eq)]
pub struct FsPath {
    pub bytes: Vec<u8>,
}

impl View for FsPath {
    type V = Seq<u8>;

    open spec fn view(&self) -> Seq<u8> {
        self.bytes@
    }
}

impl FsPath {
    pub fn new(bytes: Vec<u8>) -> (r: FsPath)
        ensures
            r@ == bytes@,
    {
        FsPath { bytes }
    }

    /// An owned copy that holds the same bytes.
    pub fn duplicate(&self) -> (r: FsPath)
        ensures
            r@ == self@,
    {
        FsPath { bytes: copy_bytes(&self.bytes) }
    }
}

/// `p` ends with the textual suffix `suffix` (case-sensitive, purely
/// textual).
pub open spec fn ends_with(p: Seq<u8>, suffix: Seq<u8>) -> bool {
    suffix.len() <= p.len() && p.subrange(p.len() - suffix.len(), p.len() as int) == suffix
}

/// `p` lies within the directory `dir`: it is `dir` itself or nested
/// anywhere beneath it (recursive containment, not just immediate
/// children).
pub open spec fn within_dir(p: Seq<u8>, dir: Seq<u8>) -> bool {
    p == dir || (dir.len() < p.len() && p.subrange(0, dir.len() as int) == dir && p[dir.len() as int]
        == SLASH)
}

pub fn copy_bytes(v: &Vec<u8>) -> (r: Vec<u8>)
    ensures
        r@ == v@,
{
    let n = v.len();
    let mut r: Vec<u8> = Vec::new();
    let mut i: usize = 0;
    while i < n
        invariant
            n == v@.len(),
            0 <= i <= n,
            r@ =~= v@.subrange(0, i as int),
        decreases n - i,
    {
        r.push(v[i]);
        i += 1;
    }
    proof {
        assert(v@.subrange(0, n as int) =~= v@);
    }
    r
}

pub fn bytes_eq(a: &Vec<u8>, b: &Vec<u8>) -> (r: bool)
    ensures
        r == (a@ == b@),
{
    let n = a.len();
    if n != b.len() {
        return false;
    }
    let mut i: usize = 0;
    while i < n
        invariant
            n == a@.len(),
            n == b@.len(),
            0 <= i <= n,
            forall|j: int| 0 <= j < i ==> a@[j] == b@[j],
        decreases n - i,
    {
        if a[i] != b[i] {
            return false;
        }
        i += 1;
    }
    proof {
        assert(a@ =~= b@);
    }
    true
}

pub fn path_ends_with(p: &Vec<u8>, suffix: &Vec<u8>) -> (r: bool)
    ensures
        r == ends_with(p@, suffix@),
{
    let pn = p.len();
    let sn = suffix.len();
    if sn > pn {
        return false;
    }
    let off = pn - sn;
    let mut i: usize = 0;
    while i < sn
        invariant
            pn == p@.len(),
            sn == suffix@.len(),
            off == pn - sn,
            0 <= i <= sn,
            forall|j: int| 0 <= j < i ==> p@[off + j] == suffix@[j],
        decreases sn - i,
    {
        if p[off + i] != suffix[i] {
            proof {
                assert(ends_with(p@, suffix@) ==> p@.subrange(off as int, pn as int)[i as int]
                    == suffix@[i as int]);
            }
            return false;
        }
        i += 1;
    }
    proof {
        assert(p@.subrange(off as int, pn as int) =~= suffix@);
    }
    true
}

pub fn path_within_dir(p: &Vec<u8>, dir: &Vec<u8>) -> (r: bool)
    ensures
        r == within_dir(p@, dir@),
{
    let pn = p.len();
    let dn = dir.len();
    if pn == dn {
        return bytes_eq(p, dir);
    }
    if pn < dn {
        proof {
            assert(p@ != dir@) by {
                assert(p@.len() != dir@.len());
            }
        }
        return false;
    }
    let mut i: usize = 0;
    while i < dn
        invariant
            pn == p@.len(),
            dn == dir@.len(),
            dn < pn,
            0 <= i <= dn,
            forall|j: int| 0 <= j < i ==> p@[j] == dir@[j],
        decreases dn - i,
    {
        if p[i] != dir[i] {
            proof {
                assert(p@ != dir@) by {
                    assert(p@.len() != dir@.len());
                }
                assert(within_dir(p@, dir@) ==> p@.subrange(0, dn as int)[i as int]
                    == dir@[i as int]);
            }
            return false;
        }
        i += 1;
    }
    proof {
        assert(p@.subrange(0, dn as int) =~= dir@);
        assert(p@ != dir@) by {
            assert(p@.len() != dir@.len());
        }
    }
    p[dn] == SLASH
}

} // verus!
