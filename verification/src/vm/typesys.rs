//! Types of the language as types of the backend.
//!
//! A value of the language takes up a sequence of slots, each of one
//! backend type. `Void` and `Poison` take none, the primitive types and
//! functions take one, and a class takes those of its members in declared
//! order.

use crate::compiler::ir::ClassContent;
use crate::compiler::ir::Module;
use crate::compiler::ir::SpecClassContent;
use crate::compiler::ir::SpecIrClass;
use crate::compiler::ir::Type;
use vstd::prelude::*;

verus! {

/// A type of the backend.
#[derive(Clone, Copy, PartialEq, Eq, Structural, Debug)]
pub enum ClifType {
    /// One bit.
    B1,
    /// Sixty-four bits, an integer.
    I64,
    /// Sixty-four bits, a floating-point number.
    F64,
}

/// The type of a pointer.
pub open spec fn clif_ptr() -> ClifType {
    ClifType::I64
}

/// How many entries at the start of `content` are members.
pub open spec fn leading_members(content: Seq<(Seq<u8>, SpecClassContent)>) -> nat
    decreases content.len(),
{
    if content.len() == 0 {
        0
    } else {
        let before = leading_members(content.drop_last());
        if before == content.len() - 1 && content.last().1 is Member {
            before + 1
        } else {
            before
        }
    }
}

/// The slots of a value of type `ty` in module `id`, whose classes are
/// `classes`. Classes are followed `fuel` deep; a class of another module
/// and what lies deeper take no slot.
pub open spec fn slots(classes: Seq<SpecIrClass>, id: usize, ty: Type, fuel: nat) -> Seq<ClifType>
    decreases fuel, 0nat,
{
    match ty {
        Type::Void | Type::Poison => Seq::empty(),
        Type::Bool => seq![ClifType::B1],
        Type::F64 => seq![ClifType::F64],
        Type::I64 => seq![ClifType::I64],
        Type::Function(_) => seq![clif_ptr()],
        Type::Class(c) => if fuel == 0 || c.module != id || c.index >= classes.len() {
            Seq::empty()
        } else {
            let content = classes[c.index as int].content;
            member_slots(classes, id, content, (fuel - 1) as nat, leading_members(content))
        },
    }
}

/// The slots of the first `n` entries of `content`, which are members.
pub open spec fn member_slots(
    classes: Seq<SpecIrClass>,
    id: usize,
    content: Seq<(Seq<u8>, SpecClassContent)>,
    fuel: nat,
    n: nat,
) -> Seq<ClifType>
    decreases fuel, n + 1,
{
    if n == 0 || n > content.len() {
        Seq::empty()
    } else {
        member_slots(classes, id, content, fuel, (n - 1) as nat) + match content[n - 1].1 {
            SpecClassContent::Member(m) => slots(classes, id, m.ty, fuel),
            _ => Seq::empty(),
        }
    }
}

/// The leading members are no more than the entries.
pub proof fn lemma_leading_bound(content: Seq<(Seq<u8>, SpecClassContent)>)
    ensures
        leading_members(content) <= content.len(),
    decreases content.len(),
{
    if content.len() > 0 {
        lemma_leading_bound(content.drop_last());
    }
}

/// Among the first entries as many lead as among all, as long as all of
/// them are members; the first that is none ends the count.
pub proof fn lemma_leading_prefix(content: Seq<(Seq<u8>, SpecClassContent)>, k: int)
    requires
        0 <= k <= content.len(),
    ensures
        leading_members(content.subrange(0, k)) == k ==> (leading_members(content) >= k),
        leading_members(content.subrange(0, k)) < k ==> leading_members(content)
            == leading_members(content.subrange(0, k)),
    decreases content.len() - k,
{
    lemma_leading_bound(content.subrange(0, k));
    if k < content.len() {
        assert(content.subrange(0, k + 1).drop_last() =~= content.subrange(0, k));
        lemma_leading_prefix(content, k + 1);
        lemma_leading_bound(content.subrange(0, k + 1));
    } else {
        assert(content.subrange(0, k) =~= content);
    }
}

fn class_slots(module: &Module, id: usize, index: usize, fuel: usize) -> (r: Vec<ClifType>)
    requires
        module.wf(),
        index < module.classes@.len(),
    ensures
        r@ == member_slots(
            module@.classes,
            id,
            module@.classes[index as int].content,
            fuel as nat,
            leading_members(module@.classes[index as int].content),
        ),
    decreases fuel, 1nat,
{
    let ghost classes = module@.classes;
    let ghost content = classes[index as int].content;
    let items = module.classes[index].content.values();
    let mut out: Vec<ClifType> = Vec::new();
    let n = items.len();
    let mut i: usize = 0;
    proof {
        assert(content.subrange(0, 0) =~= Seq::empty());
    }
    while i < n
        invariant
            i <= n,
            n == items@.len(),
            n == content.len(),
            module.wf(),
            classes == module@.classes,
            content == classes[index as int].content,
            forall|j: int| 0 <= j < n ==> (#[trigger] items@[j])@ == content[j].1,
            leading_members(content.subrange(0, i as int)) == i,
            out@ == member_slots(classes, id, content, fuel as nat, i as nat),
        decreases n - i,
    {
        proof {
            assert(content.subrange(0, i + 1).drop_last() =~= content.subrange(0, i as int));
            assert(content.subrange(0, i + 1).last() == content[i as int]);
            lemma_leading_prefix(content, i as int);
            lemma_leading_prefix(content, i + 1);
        }
        match &items[i] {
            ClassContent::Member(m) => {
                let mut more = translate_type_ref(&m.ty, module, id, fuel);
                out.append(&mut more);
            },
            _ => {
                return out;
            },
        }
        i += 1;
    }
    proof {
        assert(content.subrange(0, n as int) =~= content);
    }
    out
}

fn translate_type_ref(typ: &Type, module: &Module, id: usize, fuel: usize) -> (r: Vec<ClifType>)
    requires
        module.wf(),
    ensures
        r@ == slots(module@.classes, id, *typ, fuel as nat),
    decreases fuel, 0nat,
{
    let mut out: Vec<ClifType> = Vec::new();
    match typ {
        Type::Void | Type::Poison => {},
        Type::Bool => {
            out.push(ClifType::B1);
        },
        Type::F64 => {
            out.push(ClifType::F64);
        },
        Type::I64 => {
            out.push(ClifType::I64);
        },
        Type::Function(_) => {
            out.push(ClifType::I64);
        },
        Type::Class(c) => {
            if fuel > 0 && c.module == id && c.index < module.classes.len() {
                return class_slots(module, id, c.index, fuel - 1);
            }
        },
    }
    assert(out@ =~= slots(module@.classes, id, *typ, fuel as nat));
    out
}

/// The slots of a value of type `typ` in `module`, which is module `id`.
pub fn translate_type(typ: &Type, module: &Module, id: usize) -> (r: Vec<ClifType>)
    requires
        module.wf(),
    ensures
        r@ == slots(module@.classes, id, *typ, module@.classes.len()),
{
    translate_type_ref(typ, module, id, module.classes.len())
}

} // verus!
