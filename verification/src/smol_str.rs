//! Interned names: immutable string handles compared by content.
//!
//! A name is a string of bytes. Short names are kept inline, runs of
//! newlines followed by spaces are kept as two counters, and everything else
//! lives on the heap. Whatever the representation, two names are equal
//! exactly when they hold the same bytes.

use std::sync::Arc;
use vstd::prelude::*;
use vstd::std_specs::cmp::PartialEqSpecImpl;
use vstd::string::StringSliceAdditionalSpecFns;
use vstd::utf8::encode_utf8;
use vstd::utf8::valid_utf8;

verus! {

/// Longest text, in bytes, that a name keeps inline.
pub const INLINE_CAP: usize = 22;

/// Most newlines that the whitespace representation can hold.
pub const N_NEWLINES: usize = 32;

/// Most spaces that the whitespace representation can hold.
pub const N_SPACES: usize = 128;

/// The byte of a line feed.
pub const NEWLINE: u8 = 10;

/// The byte of a space.
pub const SPACE: u8 = 32;

enum Repr {
    Heap(Arc<Vec<u8>>),
    Inline { len: u8, buf: [u8; 22] },
    Substring { newlines: usize, spaces: usize },
}

/// The bytes of `newlines` line feeds followed by `spaces` spaces.
pub open spec fn whitespace(newlines: nat, spaces: nat) -> Seq<u8> {
    Seq::new(newlines + spaces, |i: int| if i < newlines { NEWLINE } else { SPACE })
}

/// An immutable string handle that is cheap to compare and to copy.
pub struct SmolStr {
    repr: Repr,
}

impl View for SmolStr {
    type V = Seq<u8>;

    closed spec fn view(&self) -> Seq<u8> {
        match self.repr {
            Repr::Heap(data) => data@,
            Repr::Inline { len, buf } => buf@.subrange(0, len as int),
            Repr::Substring { newlines, spaces } => whitespace(newlines as nat, spaces as nat),
        }
    }
}

impl SmolStr {
    #[verifier::type_invariant]
    spec fn inv(self) -> bool {
        match self.repr {
            Repr::Heap(_) => true,
            Repr::Inline { len, .. } => len <= INLINE_CAP,
            Repr::Substring { newlines, spaces } => newlines <= N_NEWLINES && spaces <= N_SPACES,
        }
    }

    /// The name made of the bytes of `bytes`.
    pub fn from_bytes(bytes: &[u8]) -> (r: SmolStr)
        ensures
            r@ == bytes@,
    {
        let len = bytes.len();
        if len <= INLINE_CAP {
            let mut buf = [0u8; 22];
            let mut i: usize = 0;
            while i < len
                invariant
                    i <= len,
                    len == bytes@.len(),
                    len <= INLINE_CAP,
                    forall|j: int| 0 <= j < i ==> buf@[j] == bytes@[j],
                decreases len - i,
            {
                buf[i] = bytes[i];
                i += 1;
            }
            let r = SmolStr { repr: Repr::Inline { len: len as u8, buf } };
            assert(r@ =~= bytes@);
            return r;
        }
        if len <= N_NEWLINES + N_SPACES {
            let mut newlines: usize = 0;
            while newlines < len && newlines < N_NEWLINES && bytes[newlines] == NEWLINE
                invariant
                    newlines <= len,
                    newlines <= N_NEWLINES,
                    len == bytes@.len(),
                    forall|j: int| 0 <= j < newlines ==> bytes@[j] == NEWLINE,
                decreases len - newlines,
            {
                newlines += 1;
            }
            let spaces = len - newlines;
            if spaces <= N_SPACES {
                let mut k: usize = newlines;
                while k < len && bytes[k] == SPACE
                    invariant
                        newlines <= k <= len,
                        len == bytes@.len(),
                        forall|j: int| newlines <= j < k ==> bytes@[j] == SPACE,
                    decreases len - k,
                {
                    k += 1;
                }
                if k == len {
                    let r = SmolStr { repr: Repr::Substring { newlines, spaces } };
                    assert(r@ =~= bytes@);
                    return r;
                }
            }
        }
        let mut data: Vec<u8> = Vec::new();
        let mut i: usize = 0;
        while i < len
            invariant
                i <= len,
                len == bytes@.len(),
                data@ == bytes@.subrange(0, i as int),
            decreases len - i,
        {
            data.push(bytes[i]);
            assert(data@ =~= bytes@.subrange(0, i + 1));
            i += 1;
        }
        assert(data@ =~= bytes@);
        SmolStr { repr: Repr::Heap(Arc::new(data)) }
    }

    /// The name of a text of at most twenty-two bytes, kept inline.
    pub fn new_inline(text: &str) -> (r: SmolStr)
        requires
            text.spec_bytes().len() <= INLINE_CAP,
        ensures
            r@ == text.spec_bytes(),
    {
        SmolStr::from_bytes(text.as_bytes())
    }

    /// The name of `text`.
    pub fn new(text: &str) -> (r: SmolStr)
        ensures
            r@ == text.spec_bytes(),
    {
        SmolStr::from_bytes(text.as_bytes())
    }

    /// Number of bytes in the name.
    pub fn len(&self) -> (r: usize)
        ensures
            r == self@.len(),
    {
        proof {
            use_type_invariant(self);
        }
        match &self.repr {
            Repr::Heap(data) => data.len(),
            Repr::Inline { len, .. } => *len as usize,
            Repr::Substring { newlines, spaces } => *newlines + *spaces,
        }
    }

    /// Whether the name holds no byte.
    pub fn is_empty(&self) -> (r: bool)
        ensures
            r == (self@.len() == 0),
    {
        self.len() == 0
    }

    /// The byte at position `i`.
    pub fn byte_at(&self, i: usize) -> (r: u8)
        requires
            i < self@.len(),
        ensures
            r == self@[i as int],
    {
        proof {
            use_type_invariant(self);
        }
        match &self.repr {
            Repr::Heap(data) => data[i],
            Repr::Inline { buf, .. } => buf[i],
            Repr::Substring { newlines, .. } => if i < *newlines {
                NEWLINE
            } else {
                SPACE
            },
        }
    }

    /// The bytes of the name, copied out.
    pub fn as_bytes(&self) -> (r: Vec<u8>)
        ensures
            r@ == self@,
    {
        let n = self.len();
        let mut out: Vec<u8> = Vec::new();
        let mut i: usize = 0;
        while i < n
            invariant
                i <= n,
                n == self@.len(),
                out@ == self@.subrange(0, i as int),
            decreases n - i,
        {
            out.push(self.byte_at(i));
            assert(out@ =~= self@.subrange(0, i + 1));
            i += 1;
        }
        assert(out@ =~= self@);
        out
    }

    /// Whether the name holds exactly the bytes of `other`.
    pub fn eq_bytes(&self, other: &[u8]) -> (r: bool)
        ensures
            r == (self@ == other@),
    {
        let n = self.len();
        if n != other.len() {
            return false;
        }
        let mut i: usize = 0;
        while i < n
            invariant
                i <= n,
                n == self@.len(),
                n == other@.len(),
                forall|j: int| 0 <= j < i ==> self@[j] == other@[j],
            decreases n - i,
        {
            if self.byte_at(i) != other[i] {
                return false;
            }
            i += 1;
        }
        assert(self@ =~= other@);
        true
    }

    /// Whether the two names hold the same bytes.
    pub fn same(&self, other: &SmolStr) -> (r: bool)
        ensures
            r == (self@ == other@),
    {
        let bytes = other.as_bytes();
        self.eq_bytes(bytes.as_slice())
    }

    /// The name as text. Bytes that are no UTF-8 come out as U+FFFD.
    pub fn as_str(&self) -> (r: String)
        ensures
            valid_utf8(self@) ==> encode_utf8(r@) == self@,
    {
        lossy_text(self.as_bytes())
    }
}

/// `Arc::clone` of std: one more handle to the same bytes.
#[verifier::external_body]
fn shared(data: &Arc<Vec<u8>>) -> (r: Arc<Vec<u8>>)
    ensures
        r == *data,
{
    Arc::clone(data)
}

/// `String::from_utf8_lossy` of std: bytes that are UTF-8 come out as the
/// text that they write. Nothing is claimed of other bytes.
#[verifier::external_body]
fn lossy_text(bytes: Vec<u8>) -> (r: String)
    ensures
        valid_utf8(bytes@) ==> encode_utf8(r@) == bytes@,
{
    String::from_utf8_lossy(&bytes).into_owned()
}

impl Clone for SmolStr {
    fn clone(&self) -> (r: SmolStr)
        ensures
            r@ == self@,
    {
        proof {
            use_type_invariant(self);
        }
        match &self.repr {
            Repr::Heap(data) => SmolStr { repr: Repr::Heap(shared(data)) },
            Repr::Inline { len, buf } => SmolStr { repr: Repr::Inline { len: *len, buf: *buf } },
            Repr::Substring { newlines, spaces } => SmolStr {
                repr: Repr::Substring { newlines: *newlines, spaces: *spaces },
            },
        }
    }
}

impl PartialEq for SmolStr {
    fn eq(&self, other: &SmolStr) -> (r: bool) {
        self.same(other)
    }
}

impl PartialEqSpecImpl for SmolStr {
    open spec fn obeys_eq_spec() -> bool {
        true
    }

    open spec fn eq_spec(&self, other: &SmolStr) -> bool {
        self@ == other@
    }
}

impl Eq for SmolStr {

}

impl Default for SmolStr {
    fn default() -> (r: SmolStr)
        ensures
            r@ == Seq::<u8>::empty(),
    {
        let r = SmolStr { repr: Repr::Inline { len: 0, buf: [0u8; 22] } };
        assert(r@ =~= Seq::<u8>::empty());
        r
    }
}

/// Two names made from two texts are equal exactly when the texts hold the
/// same bytes.
pub proof fn lemma_equal_iff_same_bytes(s: &str, t: &str, a: SmolStr, b: SmolStr)
    requires
        a@ == s.spec_bytes(),
        b@ == t.spec_bytes(),
    ensures
        vstd::std_specs::cmp::PartialEqSpec::eq_spec(&a, &b) <==> s.spec_bytes() == t.spec_bytes(),
{
}

} // verus!
