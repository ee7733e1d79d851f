//! Where sources come from.

use crate::smol_str::SmolStr;
use vstd::prelude::*;

verus! {

/// A source file: the path under which the language knows it, and its text.
pub struct File {
    pub path: Vec<SmolStr>,
    pub contents: String,
}

/// What hands out the source files that lie under a path.
pub trait Filesystem {
    /// Hands each file under `path` to `cls`. A file that cannot be read is
    /// left out.
    fn walk_directory<T: FnMut(File)>(&self, path: &str, cls: T);
}

/// Where the last component of the path `path` starts: behind its last
/// slash.
pub open spec fn name_start(path: Seq<u8>) -> int
    decreases path.len(),
{
    if path.len() == 0 {
        0
    } else if path.last() == ('/' as u8) {
        path.len() as int
    } else {
        name_start(path.drop_last())
    }
}

/// Where the extension of the file name `name` starts, its dot included: at
/// the last dot that is not the first byte of the name, or at the end of the
/// name where there is none.
pub open spec fn stem_end(name: Seq<u8>) -> int
    decreases name.len(),
{
    if name.len() <= 1 {
        name.len() as int
    } else if name.last() == ('.' as u8) {
        name.len() - 1
    } else {
        let before = stem_end(name.drop_last());
        if before == name.len() - 1 {
            name.len() as int
        } else {
            before
        }
    }
}

/// The stem of the path `path`: its last component without its extension.
pub open spec fn stem_of(path: Seq<u8>) -> Seq<u8> {
    let name = path.subrange(name_start(path), path.len() as int);
    name.subrange(0, stem_end(name))
}

/// The name of the file at `path`, without directory and extension.
pub fn stem_to_smol(path: &[u8]) -> (r: SmolStr)
    ensures
        r@ == stem_of(path@),
{
    let n = path.len();
    let mut start: usize = 0;
    let mut i: usize = 0;
    proof {
        assert(path@.subrange(0, 0) =~= Seq::empty());
    }
    while i < n
        invariant
            i <= n,
            n == path@.len(),
            start <= i,
            start == name_start(path@.subrange(0, i as int)),
        decreases n - i,
    {
        proof {
            assert(path@.subrange(0, i + 1).drop_last() =~= path@.subrange(0, i as int));
        }
        if path[i] == '/' as u8 {
            start = i + 1;
        }
        i += 1;
    }
    proof {
        assert(path@.subrange(0, n as int) =~= path@);
    }
    let ghost name = path@.subrange(start as int, n as int);
    let len = n - start;
    let mut end: usize = if len <= 1 {
        len
    } else {
        1
    };
    let mut k: usize = end;
    proof {
        assert(name.subrange(0, 0).len() == 0);
        if len >= 1 {
            assert(name.subrange(0, 1).len() == 1);
        }
    }
    while k < len
        invariant
            k <= len,
            n == path@.len(),
            len == name.len(),
            name == path@.subrange(start as int, n as int),
            start + len == n,
            end <= k,
            len >= 1 ==> k >= 1,
            end == stem_end(name.subrange(0, k as int)),
        decreases len - k,
    {
        proof {
            assert(name.subrange(0, k + 1).drop_last() =~= name.subrange(0, k as int));
            assert(name.subrange(0, k + 1).last() == path@[start + k]);
        }
        if path[start + k] == '.' as u8 {
            end = k;
        } else if end == k {
            end = k + 1;
        }
        k += 1;
    }
    proof {
        assert(name.subrange(0, len as int) =~= name);
        assert(name.subrange(0, end as int) =~= path@.subrange(start as int, start + end));
    }
    SmolStr::from_bytes(vstd::slice::slice_subrange(path, start, start + end))
}

} // verus!
