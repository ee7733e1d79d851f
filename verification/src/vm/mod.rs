//! The backend: typed modules to plans of backend instructions.
//!
//! A plan says, instruction by instruction, what the code generator is to be
//! asked for. Values and blocks are named by the place in the plan of the
//! instruction that makes them, so a plan is plain data: it can be checked,
//! compared and handed to whatever drives the code generator.

pub mod function;
pub mod typesys;

use crate::compiler::ir::Function;
use crate::compiler::ir::Module;
use crate::compiler::ir::SpecIrFunction;
use crate::compiler::ir::SpecIrModule;
use crate::smol_str::SmolStr;
use crate::vm::function::lowered;
use crate::vm::function::op_views;
use crate::vm::function::FnTranslator;
use crate::vm::function::LowerError;
use crate::vm::function::Op;
use crate::vm::function::SpecOp;
use crate::vm::typesys::slots;
use crate::vm::typesys::translate_type;
use crate::vm::typesys::ClifType;
use vstd::prelude::*;

verus! {

/// How a function is known to the linker.
#[derive(Clone, Copy, PartialEq, Eq, Structural, Debug)]
pub enum Linkage {
    /// Provided from outside: the table of symbols holds its address.
    Import,
    /// Defined by the module.
    Export,
}

/// The linkage of `f`: imported without a body, exported with one.
pub open spec fn linkage_of(f: SpecIrFunction) -> Linkage {
    if f.ast.body is None {
        Linkage::Import
    } else {
        Linkage::Export
    }
}

pub fn get_linkage(func: &Function) -> (r: Linkage)
    ensures
        r == linkage_of(func@),
{
    if func.ast.body.is_none() {
        Linkage::Import
    } else {
        Linkage::Export
    }
}

/// The types of the values that a function takes and hands back, as
/// specifications see them.
pub struct SpecAbi {
    pub params: Seq<ClifType>,
    pub returns: Seq<ClifType>,
}

/// The types of the values that a function takes and hands back.
pub struct Abi {
    pub params: Vec<ClifType>,
    pub returns: Vec<ClifType>,
}

impl View for Abi {
    type V = SpecAbi;

    open spec fn view(&self) -> SpecAbi {
        SpecAbi { params: self.params@, returns: self.returns@ }
    }
}

/// The slots of the first `n` parameters of `f`, one parameter after the
/// other.
pub open spec fn param_slots(m: SpecIrModule, id: usize, f: SpecIrFunction, n: nat) -> Seq<ClifType>
    decreases n,
{
    if n == 0 || n > f.params.len() {
        Seq::empty()
    } else {
        param_slots(m, id, f, (n - 1) as nat) + slots(
            m.classes,
            id,
            f.params[n - 1].ty,
            m.classes.len(),
        )
    }
}

/// The types of the values that `f` takes and hands back.
pub open spec fn abi_of(m: SpecIrModule, id: usize, f: SpecIrFunction) -> SpecAbi {
    SpecAbi {
        params: param_slots(m, id, f, f.params.len()),
        returns: slots(m.classes, id, f.ret_type, m.classes.len()),
    }
}

/// The types of the values that `func` takes and hands back.
pub fn make_fn_sig(module: &Module, id: usize, func: &Function) -> (r: Abi)
    requires
        module.wf(),
    ensures
        r@ == abi_of(module@, id, func@),
{
    let mut params: Vec<ClifType> = Vec::new();
    let n = func.params.len();
    let mut i: usize = 0;
    while i < n
        invariant
            i <= n,
            n == func.params@.len(),
            module.wf(),
            params@ == param_slots(module@, id, func@, i as nat),
        decreases n - i,
    {
        let mut more = translate_type(&func.params[i].ty, module, id);
        params.append(&mut more);
        i += 1;
    }
    Abi { params, returns: translate_type(&func.ret_type, module, id) }
}

/// What is to be done for one function, as specifications see it.
pub struct SpecFunctionPlan {
    pub name: Seq<u8>,
    pub linkage: Linkage,
    pub abi: SpecAbi,
    pub body: Option<Result<Seq<SpecOp>, LowerError>>,
}

/// What is to be done for one function: declare it under `name` with
/// `linkage` and `abi` and, where it has a body, define it by the
/// instructions of `body`. Where the body cannot be lowered, `body` holds the
/// reason.
pub struct FunctionPlan {
    pub name: SmolStr,
    pub linkage: Linkage,
    pub abi: Abi,
    pub body: Option<Result<Vec<Op>, LowerError>>,
}

impl View for FunctionPlan {
    type V = SpecFunctionPlan;

    open spec fn view(&self) -> SpecFunctionPlan {
        SpecFunctionPlan {
            name: self.name@,
            linkage: self.linkage,
            abi: self.abi@,
            body: match self.body {
                None => None,
                Some(Ok(ops)) => Some(Ok(op_views(ops@))),
                Some(Err(e)) => Some(Err(e)),
            },
        }
    }
}

/// The plan of the function at `index` of `m`.
pub open spec fn plan_of(m: SpecIrModule, id: usize, index: int) -> SpecFunctionPlan {
    let f = m.funcs[index];
    SpecFunctionPlan {
        name: f.name,
        linkage: linkage_of(f),
        abi: abi_of(m, id, f),
        body: if f.ast.body is None {
            None
        } else {
            Some(lowered(m, id, f))
        },
    }
}

/// The plans of the functions of `m`, in the order of their declaration.
pub open spec fn plans_of(m: SpecIrModule, id: usize) -> Seq<SpecFunctionPlan> {
    Seq::new(m.funcs.len(), |i: int| plan_of(m, id, i))
}

/// The plans of the functions of `module`, in the order of their
/// declaration.
pub fn jit_module(module: &Module, id: usize) -> (r: Vec<FunctionPlan>)
    requires
        module.wf(),
    ensures
        r@.len() == module.funcs@.len(),
        forall|i: int| 0 <= i < r@.len() ==> (#[trigger] r@[i])@ == plan_of(module@, id, i),
{
    let mut out: Vec<FunctionPlan> = Vec::new();
    let n = module.funcs.len();
    let mut i: usize = 0;
    while i < n
        invariant
            i <= n,
            n == module.funcs@.len(),
            module.wf(),
            out@.len() == i,
            forall|j: int| 0 <= j < i ==> (#[trigger] out@[j])@ == plan_of(module@, id, j),
        decreases n - i,
    {
        let func = &module.funcs[i];
        let body = if func.ast.body.is_some() {
            let translator = FnTranslator::new(func, module, id);
            Some(translator.build())
        } else {
            None
        };
        out.push(
            FunctionPlan {
                name: func.name.clone(),
                linkage: get_linkage(func),
                abi: make_fn_sig(module, id, func),
                body,
            },
        );
        i += 1;
    }
    out
}

} // verus!
