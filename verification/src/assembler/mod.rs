//! A buffer that machine code is written into, with labels for jumps.

pub mod x64;

use vstd::prelude::*;

verus! {

/// A place in the code that jumps go to.
#[derive(Copy, Clone, PartialEq, Eq, Structural, Debug)]
pub struct Label(pub usize);

impl Label {
    /// The number of the label.
    pub open spec fn index(self) -> int {
        self.0 as int
    }
}

/// `code` after `bytes` have been written at `pos`: bytes that were there
/// are overwritten, and the code grows where `bytes` reach beyond its end.
pub open spec fn write_at(code: Seq<u8>, pos: int, bytes: Seq<u8>) -> Seq<u8> {
    code.subrange(0, pos) + bytes + if pos + bytes.len() < code.len() {
        code.subrange(pos + bytes.len(), code.len() as int)
    } else {
        Seq::empty()
    }
}

/// Writing `a` and then `b` behind it is writing `a + b`.
pub proof fn lemma_write_join(code: Seq<u8>, pos: int, a: Seq<u8>, b: Seq<u8>)
    requires
        0 <= pos <= code.len(),
    ensures
        write_at(write_at(code, pos, a), pos + a.len(), b) == write_at(code, pos, a + b),
{
    assert(write_at(write_at(code, pos, a), pos + a.len(), b) =~= write_at(code, pos, a + b));
}

/// The four bytes of `v`, the lowest first.
pub open spec fn le32(v: u32) -> Seq<u8> {
    seq![v as u8, (v >> 8) as u8, (v >> 16) as u8, (v >> 24) as u8]
}

/// The eight bytes of `v`, the lowest first.
pub open spec fn le64(v: u64) -> Seq<u8> {
    seq![
        v as u8,
        (v >> 8) as u8,
        (v >> 16) as u8,
        (v >> 24) as u8,
        (v >> 32) as u8,
        (v >> 40) as u8,
        (v >> 48) as u8,
        (v >> 56) as u8,
    ]
}

/// Code under way: the bytes written so far, the place at which the next
/// byte goes, and for each label the offset it is bound to, if it is bound.
pub struct AssemblerBuffer {
    pub code: Vec<u8>,
    pub position: usize,
    pub labels: Vec<Option<u32>>,
}

impl AssemblerBuffer {
    /// The place of writing lies in the code or at its end.
    pub open spec fn wf(&self) -> bool {
        self.position <= self.code@.len()
    }

    /// Whether `next` is this buffer after `bytes` have been written at its
    /// place of writing, which has moved behind them.
    pub open spec fn wrote(&self, next: AssemblerBuffer, bytes: Seq<u8>) -> bool {
        &&& next.code@ == write_at(self.code@, self.position as int, bytes)
        &&& next.position == self.position + bytes.len()
        &&& next.labels@ == self.labels@
        &&& next.wf()
    }

    pub fn new() -> (r: AssemblerBuffer)
        ensures
            r.wf(),
            r.code@.len() == 0,
            r.position == 0,
            r.labels@.len() == 0,
    {
        AssemblerBuffer { code: Vec::new(), position: 0, labels: Vec::new() }
    }

    /// A new label that is not bound yet.
    pub fn create_label(&mut self) -> (r: Label)
        ensures
            r.index() == old(self).labels@.len(),
            final(self).labels@ == old(self).labels@.push(None),
            final(self).code == old(self).code,
            final(self).position == old(self).position,
    {
        self.labels.push(None);
        Label(self.labels.len() - 1)
    }

    /// A new label, bound to the place of writing.
    pub fn create_and_bind_label(&mut self) -> (r: Label)
        requires
            old(self).position <= u32::MAX,
        ensures
            r.index() == old(self).labels@.len(),
            final(self).labels@ == old(self).labels@.push(Some(old(self).position as u32)),
            final(self).code == old(self).code,
            final(self).position == old(self).position,
    {
        self.labels.push(Some(self.position as u32));
        Label(self.labels.len() - 1)
    }

    /// Binds `lbl`, which is not bound yet, to the place of writing.
    pub fn bind_label(&mut self, lbl: Label)
        requires
            lbl.index() < old(self).labels@.len(),
            old(self).labels@[lbl.index()] is None,
            old(self).position <= u32::MAX,
        ensures
            final(self).labels@ == old(self).labels@.update(
                lbl.index(),
                Some(old(self).position as u32),
            ),
            final(self).code == old(self).code,
            final(self).position == old(self).position,
    {
        let Label(idx) = lbl;
        self.labels[idx] = Some(self.position as u32);
    }

    /// The offset that `lbl` is bound to, if it is bound.
    pub fn offset(&self, lbl: Label) -> (r: Option<u32>)
        requires
            lbl.index() < self.labels@.len(),
        ensures
            r == self.labels@[lbl.index()],
    {
        let Label(idx) = lbl;
        self.labels[idx]
    }

    pub fn position(&self) -> (r: usize)
        ensures
            r == self.position,
    {
        self.position
    }

    pub fn set_position(&mut self, pos: usize)
        ensures
            final(self).position == pos,
            final(self).code == old(self).code,
            final(self).labels == old(self).labels,
    {
        self.position = pos;
    }

    pub fn set_position_end(&mut self)
        ensures
            final(self).position == old(self).code@.len(),
            final(self).code == old(self).code,
            final(self).labels == old(self).labels,
            final(self).wf(),
    {
        self.position = self.code.len();
    }

    pub fn emit_u8(&mut self, value: u8)
        requires
            old(self).wf(),
        ensures
            old(self).wrote(*final(self), seq![value]),
    {
        let ghost before = self.code@;
        if self.position == self.code.len() {
            self.code.push(value);
        } else {
            self.code[self.position] = value;
        }
        let _ = self.code.len();
        self.position += 1;
        assert(self.code@ =~= write_at(before, self.position - 1, seq![value]));
    }

    pub fn emit_u32(&mut self, value: u32)
        requires
            old(self).wf(),
        ensures
            old(self).wrote(*final(self), le32(value)),
    {
        let ghost code = self.code@;
        let ghost pos = self.position as int;
        let b0 = #[verifier::truncate] (value as u8);
        let b1 = #[verifier::truncate] ((value >> 8) as u8);
        let b2 = #[verifier::truncate] ((value >> 16) as u8);
        let b3 = #[verifier::truncate] ((value >> 24) as u8);
        self.emit_u8(b0);
        self.emit_u8(b1);
        proof {
            lemma_write_join(code, pos, seq![b0], seq![b1]);
        }
        self.emit_u8(b2);
        proof {
            lemma_write_join(code, pos, seq![b0] + seq![b1], seq![b2]);
        }
        self.emit_u8(b3);
        proof {
            lemma_write_join(code, pos, seq![b0] + seq![b1] + seq![b2], seq![b3]);
            assert(seq![b0] + seq![b1] + seq![b2] + seq![b3] =~= le32(value));
        }
    }

    pub fn emit_u64(&mut self, value: u64)
        requires
            old(self).wf(),
        ensures
            old(self).wrote(*final(self), le64(value)),
    {
        let ghost code = self.code@;
        let ghost pos = self.position as int;
        let low = #[verifier::truncate] (value as u32);
        let high = #[verifier::truncate] ((value >> 32) as u32);
        self.emit_u32(low);
        self.emit_u32(high);
        proof {
            lemma_write_join(code, pos, le32(low), le32(high));
            assert(le32(low) + le32(high) =~= le64(value)) by {
                assert(low as u8 == value as u8 && (low >> 8) as u8 == (value >> 8) as u8 && (low
                    >> 16) as u8 == (value >> 16) as u8 && (low >> 24) as u8 == (value >> 24) as u8
                    && high as u8 == (value >> 32) as u8 && (high >> 8) as u8 == (value >> 40) as u8
                    && (high >> 16) as u8 == (value >> 48) as u8 && (high >> 24) as u8 == (value
                    >> 56) as u8) by (bit_vector)
                    requires
                        low == value as u32,
                        high == (value >> 32) as u32,
                ;
            }
        }
    }
}

} // verus!
