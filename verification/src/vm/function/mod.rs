//! The translator of one function: from its typed body to backend
//! instructions.

pub mod exprs;
pub mod offsets;

use crate::compiler::ir::var_views;
use crate::compiler::ir::Function;
use crate::compiler::ir::Module;
use crate::compiler::ir::SpecIrFunction;
use crate::compiler::ir::SpecIrModule;
use crate::compiler::ir::SpecVarStore;
use crate::compiler::ir::VarStore;
use crate::smol_str::SmolStr;
use crate::vm::function::exprs::trans;
use crate::vm::function::offsets::held_offsets;
use crate::vm::function::offsets::offsets_at;
use crate::vm::function::offsets::offsets_len;
use crate::vm::function::offsets::offsets_of;
use crate::vm::function::offsets::offsets_push;
use crate::vm::function::offsets::Offsets;
use crate::vm::function::offsets::OFFSETS_LIMIT;
use crate::vm::typesys::slots;
use crate::vm::typesys::translate_type;
use crate::vm::typesys::ClifType;
use vstd::prelude::*;

verus! {

/// A value: the `result`-th of those that the instruction at `op` yields.
#[derive(Clone, Copy, PartialEq, Eq, Structural, Debug)]
pub struct ValueRef {
    pub op: usize,
    pub result: usize,
}

/// Arithmetic on integers.
#[derive(Clone, Copy, PartialEq, Eq, Structural, Debug)]
pub enum IntOp {
    Iadd,
    Isub,
    Imul,
    Udiv,
}

/// Arithmetic on floating-point numbers.
#[derive(Clone, Copy, PartialEq, Eq, Structural, Debug)]
pub enum FloatOp {
    Fadd,
    Fsub,
    Fmul,
    Fdiv,
}

/// A comparison; on integers it is taken with sign.
#[derive(Clone, Copy, PartialEq, Eq, Structural, Debug)]
pub enum Cond {
    Equal,
    NotEqual,
    Greater,
    GreaterEqual,
    Less,
    LessEqual,
}

/// Why a body cannot be lowered.
#[derive(Clone, Copy, PartialEq, Eq, Structural, Debug)]
pub enum LowerError {
    /// The body holds what failed to compile.
    Poison,
    /// The body holds text.
    Text,
    /// The body holds a class as a value.
    ClassValue,
    /// An operand or a condition yields no value.
    NoValue,
    /// The operator is neither arithmetic nor a comparison.
    UnknownOperator,
    /// A variable is not among those of the function.
    BadVariable,
    /// What is assigned to is no variable.
    BadAssignTarget,
    /// What is called is no function of this module.
    BadCallee,
    /// The function needs more variables than can be numbered.
    TooLarge,
}

/// A backend instruction as specifications see it.
#[allow(inconsistent_fields)]
pub enum SpecOp {
    CreateBlock,
    SwitchToBlock { block: usize },
    SealBlock { block: usize },
    AppendFunctionParams { block: usize },
    AppendBlockParam { block: usize, ty: ClifType },
    DeclareVar { var: usize, ty: ClifType },
    DefVar { var: usize, value: ValueRef },
    UseVar { var: usize },
    Bconst { value: bool },
    Iconst { value: i64 },
    F64const { text: Seq<u8> },
    Int { op: IntOp, left: ValueRef, right: ValueRef },
    Icmp { cond: Cond, left: ValueRef, right: ValueRef },
    Float { op: FloatOp, left: ValueRef, right: ValueRef },
    Fcmp { cond: Cond, left: ValueRef, right: ValueRef },
    Brz { cond: ValueRef, block: usize },
    Jump { block: usize, args: Seq<ValueRef> },
    Call { func: usize, args: Seq<ValueRef>, results: usize },
    Return { values: Seq<ValueRef> },
}

/// A backend instruction. A block is named by the place of the
/// `CreateBlock` that makes it, a variable by its number, a function by its
/// place in the module.
#[allow(inconsistent_fields)]
pub enum Op {
    /// Makes a block.
    CreateBlock,
    /// What follows goes into `block`.
    SwitchToBlock { block: usize },
    /// Every jump to `block` has been written.
    SealBlock { block: usize },
    /// Gives `block` the parameters of the function; yields one value for
    /// each of them.
    AppendFunctionParams { block: usize },
    /// Gives `block` one more parameter; yields its value.
    AppendBlockParam { block: usize, ty: ClifType },
    /// Declares the variable `var`.
    DeclareVar { var: usize, ty: ClifType },
    /// Gives the variable `var` the value `value`.
    DefVar { var: usize, value: ValueRef },
    /// Yields the value of the variable `var`.
    UseVar { var: usize },
    /// Yields a truth value.
    Bconst { value: bool },
    /// Yields an integer.
    Iconst { value: i64 },
    /// Yields the floating-point number that `text` writes.
    F64const { text: SmolStr },
    Int { op: IntOp, left: ValueRef, right: ValueRef },
    Icmp { cond: Cond, left: ValueRef, right: ValueRef },
    Float { op: FloatOp, left: ValueRef, right: ValueRef },
    Fcmp { cond: Cond, left: ValueRef, right: ValueRef },
    /// Goes to `block` where `cond` is zero.
    Brz { cond: ValueRef, block: usize },
    /// Goes to `block` and hands it `args`.
    Jump { block: usize, args: Vec<ValueRef> },
    /// Calls the function at `func` of the module; yields `results` values.
    Call { func: usize, args: Vec<ValueRef>, results: usize },
    /// Leaves the function with `values`.
    Return { values: Vec<ValueRef> },
}

impl View for Op {
    type V = SpecOp;

    open spec fn view(&self) -> SpecOp {
        match *self {
            Op::CreateBlock => SpecOp::CreateBlock,
            Op::SwitchToBlock { block } => SpecOp::SwitchToBlock { block },
            Op::SealBlock { block } => SpecOp::SealBlock { block },
            Op::AppendFunctionParams { block } => SpecOp::AppendFunctionParams { block },
            Op::AppendBlockParam { block, ty } => SpecOp::AppendBlockParam { block, ty },
            Op::DeclareVar { var, ty } => SpecOp::DeclareVar { var, ty },
            Op::DefVar { var, value } => SpecOp::DefVar { var, value },
            Op::UseVar { var } => SpecOp::UseVar { var },
            Op::Bconst { value } => SpecOp::Bconst { value },
            Op::Iconst { value } => SpecOp::Iconst { value },
            Op::F64const { text } => SpecOp::F64const { text: text@ },
            Op::Int { op, left, right } => SpecOp::Int { op, left, right },
            Op::Icmp { cond, left, right } => SpecOp::Icmp { cond, left, right },
            Op::Float { op, left, right } => SpecOp::Float { op, left, right },
            Op::Fcmp { cond, left, right } => SpecOp::Fcmp { cond, left, right },
            Op::Brz { cond, block } => SpecOp::Brz { cond, block },
            Op::Jump { block, args } => SpecOp::Jump { block, args: args@ },
            Op::Call { func, args, results } => SpecOp::Call { func, args: args@, results },
            Op::Return { values } => SpecOp::Return { values: values@ },
        }
    }
}

/// The views of the instructions of `ops`, in order.
pub open spec fn op_views(ops: Seq<Op>) -> Seq<SpecOp> {
    Seq::new(ops.len(), |i: int| ops[i]@)
}

/// Where the translation of a function stands: the instructions written so
/// far, and for each variable the number of its first slot. The last entry
/// of `offsets` is the number of the next free slot.
pub struct Lowered {
    pub ops: Seq<SpecOp>,
    pub offsets: Seq<usize>,
}

/// What a step of the translation gives: the values it yields and where the
/// translation stands after it, or the reason why it cannot be done.
pub type Out = Result<(Seq<ValueRef>, Lowered), LowerError>;

/// `st` with the instruction `op` written.
pub open spec fn emit(st: Lowered, op: SpecOp) -> Lowered {
    Lowered { ops: st.ops.push(op), ..st }
}

/// The value that the next instruction yields.
pub open spec fn next_value(st: Lowered) -> ValueRef {
    ValueRef { op: st.ops.len() as usize, result: 0 }
}

/// `st` with one variable declared for each of the first `n` of `tys`,
/// numbered from `offset` on.
pub open spec fn declare_vars(st: Lowered, offset: usize, tys: Seq<ClifType>, n: nat) -> Lowered
    decreases n,
{
    if n == 0 || n > tys.len() {
        st
    } else {
        emit(
            declare_vars(st, offset, tys, (n - 1) as nat),
            SpecOp::DeclareVar { var: (offset + n - 1) as usize, ty: tys[n - 1] },
        )
    }
}

/// `st` with the first `n` variables from `offset` on given the values that
/// the instruction at `from` yields at the same numbers.
pub open spec fn define_vars(st: Lowered, offset: usize, from: usize, n: nat) -> Lowered
    decreases n,
{
    if n == 0 {
        st
    } else {
        emit(
            define_vars(st, offset, from, (n - 1) as nat),
            SpecOp::DefVar {
                var: (offset + n - 1) as usize,
                value: ValueRef { op: from, result: (offset + n - 1) as usize },
            },
        )
    }
}

/// Declares the slots of the variable `var` behind those of the variable
/// before it.
pub open spec fn declare_local(m: SpecIrModule, id: usize, st: Lowered, var: SpecVarStore) -> Result<
    Lowered,
    LowerError,
> {
    let tys = slots(m.classes, id, var.ty, m.classes.len());
    if var.index >= st.offsets.len() {
        Err(LowerError::BadVariable)
    } else if st.offsets[var.index as int] + tys.len() > usize::MAX || st.offsets.len()
        >= OFFSETS_LIMIT {
        Err(LowerError::TooLarge)
    } else {
        let last = st.offsets[var.index as int];
        let declared = declare_vars(st, last, tys, tys.len());
        Ok(Lowered { offsets: declared.offsets.push((last + tys.len()) as usize), ..declared })
    }
}

/// Declares the first `n` of `params` and gives each the values that the
/// instruction at `from` yields for it.
pub open spec fn declare_params(
    m: SpecIrModule,
    id: usize,
    st: Lowered,
    params: Seq<SpecVarStore>,
    from: usize,
    n: nat,
) -> Result<Lowered, LowerError>
    decreases n,
{
    if n == 0 || n > params.len() {
        Ok(st)
    } else {
        match declare_params(m, id, st, params, from, (n - 1) as nat) {
            Err(e) => Err(e),
            Ok(s1) => match declare_local(m, id, s1, params[n - 1]) {
                Err(e) => Err(e),
                Ok(s2) => {
                    let var = params[n - 1];
                    let tys = slots(m.classes, id, var.ty, m.classes.len());
                    Ok(define_vars(s2, s2.offsets[var.index as int], from, tys.len()))
                },
            },
        }
    }
}

/// Declares the first `n` of `locals`.
pub open spec fn declare_locals(
    m: SpecIrModule,
    id: usize,
    st: Lowered,
    locals: Seq<SpecVarStore>,
    n: nat,
) -> Result<Lowered, LowerError>
    decreases n,
{
    if n == 0 || n > locals.len() {
        Ok(st)
    } else {
        match declare_locals(m, id, st, locals, (n - 1) as nat) {
            Err(e) => Err(e),
            Ok(s1) => declare_local(m, id, s1, locals[n - 1]),
        }
    }
}

/// Where the translation of `f` stands before its body: the entry block is
/// made, takes the parameters of the function and is sealed, and the
/// parameters and local variables are declared.
pub open spec fn prologue(m: SpecIrModule, id: usize, f: SpecIrFunction) -> Result<
    Lowered,
    LowerError,
> {
    let entry = Lowered {
        ops: seq![
            SpecOp::CreateBlock,
            SpecOp::SwitchToBlock { block: 0 },
            SpecOp::AppendFunctionParams { block: 0 },
            SpecOp::SealBlock { block: 0 },
        ],
        offsets: seq![0usize],
    };
    match declare_params(m, id, entry, f.params, 2, f.params.len()) {
        Err(e) => Err(e),
        Ok(s1) => declare_locals(m, id, s1, f.locals, f.locals.len()),
    }
}

/// The instructions of the function `f` of module `m`, or the reason why
/// its body cannot be lowered.
pub open spec fn lowered(m: SpecIrModule, id: usize, f: SpecIrFunction) -> Result<
    Seq<SpecOp>,
    LowerError,
> {
    match prologue(m, id, f) {
        Err(e) => Err(e),
        Ok(s1) => match trans(m, id, s1, f.body) {
            Err(e) => Err(e),
            Ok((values, s2)) => Ok(s2.ops.push(SpecOp::Return { values })),
        },
    }
}

/// The translator of one function.
pub struct FnTranslator<'b> {
    pub func: &'b Function,
    pub module: &'b Module,
    pub id: usize,
    pub ops: Vec<Op>,
    pub local_offsets: Offsets,
}

impl<'b> FnTranslator<'b> {
    /// Where the translation stands.
    pub open spec fn state(&self) -> Lowered {
        Lowered { ops: op_views(self.ops@), offsets: held_offsets(self.local_offsets) }
    }

    /// Whether `next` is this translator in the state `st`.
    pub open spec fn becomes(&self, next: FnTranslator<'b>, st: Lowered) -> bool {
        &&& next.func == self.func
        &&& next.module == self.module
        &&& next.id == self.id
        &&& next.state() == st
    }

    /// A translator for `func`, a function of `module`, which is module
    /// `id`.
    pub fn new(func: &'b Function, module: &'b Module, id: usize) -> (r: FnTranslator<'b>)
        ensures
            r.func == func,
            r.module == module,
            r.id == id,
            r.state() == (Lowered { ops: Seq::empty(), offsets: seq![0usize] }),
    {
        let r = FnTranslator { func, module, id, ops: Vec::new(), local_offsets: offsets_of(0) };
        assert(r.state().ops =~= Seq::empty());
        assert(r.state().offsets =~= seq![0usize]);
        r
    }

    /// Writes `op` and hands back its place.
    pub(crate) fn emit(&mut self, op: Op) -> (at: usize)
        ensures
            old(self).becomes(*final(self), emit(old(self).state(), op@)),
            final(self).local_offsets == old(self).local_offsets,
            at == old(self).state().ops.len(),
    {
        let ghost before = op_views(self.ops@);
        let at = self.ops.len();
        self.ops.push(op);
        assert(op_views(self.ops@) =~= before.push(op@));
        at
    }

    pub(crate) fn new_block(&mut self) -> (block: usize)
        ensures
            old(self).becomes(*final(self), emit(old(self).state(), SpecOp::CreateBlock)),
            final(self).local_offsets == old(self).local_offsets,
            block == old(self).state().ops.len(),
    {
        self.emit(Op::CreateBlock)
    }

    pub(crate) fn switch_block(&mut self, block: usize)
        ensures
            old(self).becomes(
                *final(self),
                emit(old(self).state(), SpecOp::SwitchToBlock { block }),
            ),
            final(self).local_offsets == old(self).local_offsets,
    {
        let _ = self.emit(Op::SwitchToBlock { block });
    }

    pub(crate) fn seal_block(&mut self, block: usize)
        ensures
            old(self).becomes(*final(self), emit(old(self).state(), SpecOp::SealBlock { block })),
            final(self).local_offsets == old(self).local_offsets,
    {
        let _ = self.emit(Op::SealBlock { block });
    }

    fn declare_local(&mut self, var: &VarStore) -> (r: Result<(), LowerError>)
        requires
            old(self).module.wf(),
        ensures
            match declare_local(old(self).module@, old(self).id, old(self).state(), var@) {
                Ok(st) => r is Ok && old(self).becomes(*final(self), st)
                    && held_offsets(final(self).local_offsets) == held_offsets(
                    old(self).local_offsets,
                ).push(
                    (held_offsets(old(self).local_offsets)[var.index as int] + slots(
                        old(self).module@.classes,
                        old(self).id,
                        var.ty,
                        old(self).module@.classes.len(),
                    ).len()) as usize,
                ),
                Err(e) => r == Err::<(), LowerError>(e) && final(self).module == old(self).module
                    && final(self).func == old(self).func && final(self).id == old(self).id,
            },
    {
        let ghost start = self.state();
        let known = offsets_len(&self.local_offsets);
        if var.index >= known {
            return Err(LowerError::BadVariable);
        }
        let last_len = offsets_at(&self.local_offsets, var.index);
        let tys = translate_type(&var.ty, self.module, self.id);
        if tys.len() > usize::MAX - last_len || known >= OFFSETS_LIMIT {
            return Err(LowerError::TooLarge);
        }
        let mut i: usize = 0;
        while i < tys.len()
            invariant
                i <= tys@.len(),
                last_len + tys@.len() <= usize::MAX,
                self.local_offsets == old(self).local_offsets,
                old(self).becomes(*self, declare_vars(start, last_len, tys@, i as nat)),
            decreases tys@.len() - i,
        {
            let _ = self.emit(Op::DeclareVar { var: last_len + i, ty: tys[i] });
            i += 1;
        }
        offsets_push(&mut self.local_offsets, last_len + tys.len());
        Ok(())
    }

    fn define_local(&mut self, var: &VarStore, from: usize)
        requires
            old(self).module.wf(),
            var.index < held_offsets(old(self).local_offsets).len(),
            held_offsets(old(self).local_offsets)[var.index as int] + slots(
                old(self).module@.classes,
                old(self).id,
                var.ty,
                old(self).module@.classes.len(),
            ).len() <= usize::MAX,
        ensures
            old(self).becomes(
                *final(self),
                define_vars(
                    old(self).state(),
                    held_offsets(old(self).local_offsets)[var.index as int],
                    from,
                    slots(
                        old(self).module@.classes,
                        old(self).id,
                        var.ty,
                        old(self).module@.classes.len(),
                    ).len(),
                ),
            ),
            final(self).local_offsets == old(self).local_offsets,
    {
        let ghost start = self.state();
        let offset = offsets_at(&self.local_offsets, var.index);
        let tys = translate_type(&var.ty, self.module, self.id);
        let mut i: usize = 0;
        while i < tys.len()
            invariant
                i <= tys@.len(),
                offset + tys@.len() <= usize::MAX,
                self.local_offsets == old(self).local_offsets,
                old(self).becomes(*self, define_vars(start, offset, from, i as nat)),
            decreases tys@.len() - i,
        {
            let _ = self.emit(
                Op::DefVar { var: offset + i, value: ValueRef { op: from, result: offset + i } },
            );
            i += 1;
        }
    }

    #[verifier::loop_isolation(false)]
    fn declare_variables(&mut self, from: usize) -> (r: Result<(), LowerError>)
        requires
            old(self).module.wf(),
        ensures
            ({
                let m = old(self).module@;
                let f = old(self).func@;
                let after_params = declare_params(
                    m,
                    old(self).id,
                    old(self).state(),
                    f.params,
                    from,
                    f.params.len(),
                );
                let all = match after_params {
                    Err(e) => Err(e),
                    Ok(s1) => declare_locals(m, old(self).id, s1, f.locals, f.locals.len()),
                };
                match all {
                    Ok(st) => r is Ok && old(self).becomes(*final(self), st),
                    Err(e) => r == Err::<(), LowerError>(e),
                }
            }),
    {
        let ghost m = self.module@;
        let ghost start = self.state();
        let ghost params = self.func@.params;
        let ghost locals = self.func@.locals;
        let func = self.func;
        let n = func.params.len();
        let mut i: usize = 0;
        while i < n
            invariant
                i <= n,
                n == func.params@.len(),
                func == old(self).func,
                params == var_views(func.params@),
                m == old(self).module@,
                self.module.wf(),
                declare_params(m, self.id, start, params, from, i as nat) is Ok,
                old(self).becomes(
                    *self,
                    declare_params(m, self.id, start, params, from, i as nat)->Ok_0,
                ),
            decreases n - i,
        {
            match self.declare_local(&func.params[i]) {
                Err(e) => {
                    proof {
                        lemma_params_stay_failed(m, self.id, start, params, from, i + 1);
                    }
                    return Err(e);
                },
                Ok(_) => {},
            }
            self.define_local(&func.params[i], from);
            i += 1;
        }
        let ghost mid = self.state();
        let k = func.locals.len();
        let mut j: usize = 0;
        while j < k
            invariant
                j <= k,
                k == func.locals@.len(),
                func == old(self).func,
                locals == var_views(func.locals@),
                m == old(self).module@,
                self.module.wf(),
                declare_locals(m, self.id, mid, locals, j as nat) is Ok,
                old(self).becomes(*self, declare_locals(m, self.id, mid, locals, j as nat)->Ok_0),
            decreases k - j,
        {
            match self.declare_local(&func.locals[j]) {
                Err(e) => {
                    proof {
                        lemma_locals_stay_failed(m, self.id, mid, locals, j + 1);
                    }
                    return Err(e);
                },
                Ok(_) => {},
            }
            j += 1;
        }
        Ok(())
    }

    fn init(&mut self) -> (r: Result<(), LowerError>)
        requires
            old(self).module.wf(),
            old(self).state() == (Lowered { ops: Seq::empty(), offsets: seq![0usize] }),
        ensures
            match prologue(old(self).module@, old(self).id, old(self).func@) {
                Ok(st) => r is Ok && old(self).becomes(*final(self), st),
                Err(e) => r == Err::<(), LowerError>(e),
            },
    {
        let entry = self.new_block();
        self.switch_block(entry);
        let from = self.emit(Op::AppendFunctionParams { block: entry });
        self.seal_block(entry);
        proof {
            assert(self.state().ops =~= seq![
                SpecOp::CreateBlock,
                SpecOp::SwitchToBlock { block: 0 },
                SpecOp::AppendFunctionParams { block: 0 },
                SpecOp::SealBlock { block: 0 },
            ]);
        }
        self.declare_variables(from)
    }

    /// The instructions of the function, or the reason why its body cannot
    /// be lowered.
    pub fn build(self) -> (r: Result<Vec<Op>, LowerError>)
        requires
            self.module.wf(),
            self.state() == (Lowered { ops: Seq::empty(), offsets: seq![0usize] }),
        ensures
            match lowered(self.module@, self.id, self.func@) {
                Ok(ops) => r is Ok && op_views(r->Ok_0@) == ops,
                Err(e) => r == Err::<Vec<Op>, LowerError>(e),
            },
    {
        let mut this = self;
        match this.init() {
            Err(e) => return Err(e),
            Ok(_) => {},
        }
        let func = this.func;
        let values = match this.trans_expr(&func.body) {
            Err(e) => return Err(e),
            Ok(v) => v,
        };
        let _ = this.emit(Op::Return { values });
        Ok(this.ops)
    }
}

/// Once a parameter cannot be declared, the failure stays the outcome
/// however many parameters follow.
proof fn lemma_params_stay_failed(
    m: SpecIrModule,
    id: usize,
    st: Lowered,
    params: Seq<SpecVarStore>,
    from: usize,
    n: int,
)
    requires
        0 <= n <= params.len(),
        declare_params(m, id, st, params, from, n as nat) is Err,
    ensures
        declare_params(m, id, st, params, from, params.len()) == declare_params(
            m,
            id,
            st,
            params,
            from,
            n as nat,
        ),
    decreases params.len() - n,
{
    if n < params.len() {
        lemma_params_stay_failed(m, id, st, params, from, n + 1);
    }
}

/// Once a local variable cannot be declared, the failure stays the outcome
/// however many local variables follow.
proof fn lemma_locals_stay_failed(
    m: SpecIrModule,
    id: usize,
    st: Lowered,
    locals: Seq<SpecVarStore>,
    n: int,
)
    requires
        0 <= n <= locals.len(),
        declare_locals(m, id, st, locals, n as nat) is Err,
    ensures
        declare_locals(m, id, st, locals, locals.len()) == declare_locals(
            m,
            id,
            st,
            locals,
            n as nat,
        ),
    decreases locals.len() - n,
{
    if n < locals.len() {
        lemma_locals_stay_failed(m, id, st, locals, n + 1);
    }
}

} // verus!
