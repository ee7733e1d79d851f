//! The translation of typed expressions.

use crate::compiler::ir::ir_views;
use crate::compiler::ir::type_of;
use crate::compiler::ir::Constant;
use crate::compiler::ir::Expr;
use crate::compiler::ir::IExpr;
use crate::compiler::ir::SpecConstant;
use crate::compiler::ir::SpecIr;
use crate::compiler::ir::SpecIrModule;
use crate::compiler::ir::Type;
use crate::lexer::TKind;
use crate::vm::function::emit;
use crate::vm::function::next_value;
use crate::vm::function::offsets::offsets_at;
use crate::vm::function::offsets::offsets_len;
use crate::vm::function::Cond;
use crate::vm::function::FloatOp;
use crate::vm::function::FnTranslator;
use crate::vm::function::IntOp;
use crate::vm::function::LowerError;
use crate::vm::function::Lowered;
use crate::vm::function::Op;
use crate::vm::function::Out;
use crate::vm::function::SpecOp;
use crate::vm::function::ValueRef;
use crate::vm::typesys::slots;
use crate::vm::typesys::translate_type;
use crate::vm::typesys::ClifType;
use vstd::prelude::*;

verus! {

/// Writes `op`, which yields one value.
pub open spec fn one(st: Lowered, op: SpecOp) -> Out {
    Ok((seq![next_value(st)], emit(st, op)))
}

/// The arithmetic on integers that the operator `kind` stands for.
pub open spec fn int_op(kind: TKind) -> Option<IntOp> {
    match kind {
        TKind::Plus => Some(IntOp::Iadd),
        TKind::Minus => Some(IntOp::Isub),
        TKind::Star => Some(IntOp::Imul),
        TKind::Slash => Some(IntOp::Udiv),
        _ => None,
    }
}

/// The arithmetic on floating-point numbers that the operator `kind` stands
/// for.
pub open spec fn float_op(kind: TKind) -> Option<FloatOp> {
    match kind {
        TKind::Plus => Some(FloatOp::Fadd),
        TKind::Minus => Some(FloatOp::Fsub),
        TKind::Star => Some(FloatOp::Fmul),
        TKind::Slash => Some(FloatOp::Fdiv),
        _ => None,
    }
}

/// The comparison that the operator `kind` stands for.
pub open spec fn cond_of(kind: TKind) -> Option<Cond> {
    match kind {
        TKind::EqualEqual => Some(Cond::Equal),
        TKind::BangEqual => Some(Cond::NotEqual),
        TKind::Greater => Some(Cond::Greater),
        TKind::GreaterEqual => Some(Cond::GreaterEqual),
        TKind::Less => Some(Cond::Less),
        TKind::LessEqual => Some(Cond::LessEqual),
        _ => None,
    }
}

/// The instruction of the binary operator `kind` on `left` and `right`,
/// whose left side is of type `ty`: arithmetic and comparisons of integers
/// where the type counts as an integer, those of floating-point numbers
/// else.
pub open spec fn binary_op(ty: Type, kind: TKind, left: ValueRef, right: ValueRef) -> Option<
    SpecOp,
> {
    if ty.is_int() {
        match int_op(kind) {
            Some(op) => Some(SpecOp::Int { op, left, right }),
            None => match cond_of(kind) {
                Some(cond) => Some(SpecOp::Icmp { cond, left, right }),
                None => None,
            },
        }
    } else {
        match float_op(kind) {
            Some(op) => Some(SpecOp::Float { op, left, right }),
            None => match cond_of(kind) {
                Some(cond) => Some(SpecOp::Fcmp { cond, left, right }),
                None => None,
            },
        }
    }
}

/// Reads the first `n` slots from `offset` on.
pub open spec fn use_vars(st: Lowered, offset: usize, n: nat) -> (Seq<ValueRef>, Lowered)
    decreases n,
{
    if n == 0 {
        (Seq::empty(), st)
    } else {
        let (values, s1) = use_vars(st, offset, (n - 1) as nat);
        (
            values.push(next_value(s1)),
            emit(s1, SpecOp::UseVar { var: (offset + n - 1) as usize }),
        )
    }
}

/// Writes the first `n` of `values` to the slots from `offset` on.
pub open spec fn def_vars(st: Lowered, offset: usize, values: Seq<ValueRef>, n: nat) -> Lowered
    decreases n,
{
    if n == 0 || n > values.len() {
        st
    } else {
        emit(
            def_vars(st, offset, values, (n - 1) as nat),
            SpecOp::DefVar { var: (offset + n - 1) as usize, value: values[n - 1] },
        )
    }
}

/// Gives `block` a parameter for each of the first `n` of `tys`.
pub open spec fn append_params(st: Lowered, block: usize, tys: Seq<ClifType>, n: nat) -> (
    Seq<ValueRef>,
    Lowered,
)
    decreases n,
{
    if n == 0 || n > tys.len() {
        (Seq::empty(), st)
    } else {
        let (values, s1) = append_params(st, block, tys, (n - 1) as nat);
        (
            values.push(next_value(s1)),
            emit(s1, SpecOp::AppendBlockParam { block, ty: tys[n - 1] }),
        )
    }
}

/// What a jump to the block behind an `if` hands over: the values of the
/// branch where the `if` yields a value, nothing else.
pub open spec fn handed(phi: bool, values: Seq<ValueRef>) -> Seq<ValueRef> {
    if phi {
        values
    } else {
        Seq::empty()
    }
}

/// The function of module `m` that a value of type `ty` calls.
pub open spec fn callee_of(m: SpecIrModule, id: usize, ty: Type) -> Option<usize> {
    match ty {
        Type::Function(f) => if f.module == id && f.index < m.funcs.len() {
            Some(f.index)
        } else {
            None
        },
        _ => None,
    }
}

/// The translation of the typed expression `e`.
pub open spec fn trans(m: SpecIrModule, id: usize, st: Lowered, e: SpecIr) -> Out
    decreases e, 0nat,
{
    match e {
        SpecIr::Poison => Err(LowerError::Poison),
        SpecIr::Constant(c) => match c {
            SpecConstant::Bool(value) => one(st, SpecOp::Bconst { value }),
            SpecConstant::Int(value) => one(st, SpecOp::Iconst { value }),
            SpecConstant::Float(text) => one(st, SpecOp::F64const { text }),
            SpecConstant::String(_) => Err(LowerError::Text),
            SpecConstant::Function(_) => one(st, SpecOp::Iconst { value: 0 }),
            SpecConstant::Class(_) => Err(LowerError::ClassValue),
        },
        SpecIr::Binary { left, op, right } => match trans(m, id, st, *left) {
            Err(e) => Err(e),
            Ok((l, s1)) => match trans(m, id, s1, *right) {
                Err(e) => Err(e),
                Ok((r, s2)) => if l.len() == 0 || r.len() == 0 {
                    Err(LowerError::NoValue)
                } else {
                    match binary_op(type_of(*left), op.kind, l[0], r[0]) {
                        Some(made) => one(s2, made),
                        None => Err(LowerError::UnknownOperator),
                    }
                },
            },
        },
        SpecIr::Block(exprs) => trans_block(m, id, st, exprs, exprs.len()),
        SpecIr::If { cond, then, els, phi } => match trans(m, id, st, *cond) {
            Err(e) => Err(e),
            Ok((c, s1)) => if c.len() == 0 {
                Err(LowerError::NoValue)
            } else {
                let then_b = s1.ops.len() as usize;
                let else_b = (s1.ops.len() + 1) as usize;
                let cont_b = (s1.ops.len() + 2) as usize;
                let s2 = emit(
                    emit(emit(s1, SpecOp::CreateBlock), SpecOp::CreateBlock),
                    SpecOp::CreateBlock,
                );
                let tys = if phi {
                    slots(m.classes, id, type_of(*then), m.classes.len())
                } else {
                    Seq::empty()
                };
                let (merged, s3) = append_params(s2, cont_b, tys, tys.len());
                let s4 = emit(
                    emit(
                        emit(
                            emit(s3, SpecOp::Brz { cond: c[0], block: else_b }),
                            SpecOp::Jump { block: then_b, args: Seq::empty() },
                        ),
                        SpecOp::SwitchToBlock { block: then_b },
                    ),
                    SpecOp::SealBlock { block: then_b },
                );
                match trans(m, id, s4, *then) {
                    Err(e) => Err(e),
                    Ok((t, s5)) => {
                        let s6 = emit(
                            emit(
                                emit(s5, SpecOp::Jump { block: cont_b, args: handed(phi, t) }),
                                SpecOp::SwitchToBlock { block: else_b },
                            ),
                            SpecOp::SealBlock { block: else_b },
                        );
                        match trans(m, id, s6, *els) {
                            Err(e) => Err(e),
                            Ok((x, s7)) => Ok(
                                (
                                    merged,
                                    emit(
                                        emit(
                                            emit(
                                                s7,
                                                SpecOp::Jump {
                                                    block: cont_b,
                                                    args: handed(phi, x),
                                                },
                                            ),
                                            SpecOp::SwitchToBlock { block: cont_b },
                                        ),
                                        SpecOp::SealBlock { block: cont_b },
                                    ),
                                ),
                            ),
                        }
                    },
                }
            },
        },
        SpecIr::While { cond, body } => {
            let head_b = st.ops.len() as usize;
            let body_b = (st.ops.len() + 1) as usize;
            let cont_b = (st.ops.len() + 2) as usize;
            let s1 = emit(
                emit(
                    emit(
                        emit(emit(st, SpecOp::CreateBlock), SpecOp::CreateBlock),
                        SpecOp::CreateBlock,
                    ),
                    SpecOp::Jump { block: head_b, args: Seq::empty() },
                ),
                SpecOp::SwitchToBlock { block: head_b },
            );
            match trans(m, id, s1, *cond) {
                Err(e) => Err(e),
                Ok((c, s2)) => if c.len() == 0 {
                    Err(LowerError::NoValue)
                } else {
                    let s3 = emit(
                        emit(
                            emit(
                                emit(s2, SpecOp::Brz { cond: c[0], block: cont_b }),
                                SpecOp::Jump { block: body_b, args: Seq::empty() },
                            ),
                            SpecOp::SwitchToBlock { block: body_b },
                        ),
                        SpecOp::SealBlock { block: body_b },
                    );
                    match trans(m, id, s3, *body) {
                        Err(e) => Err(e),
                        Ok((_, s4)) => one(
                            emit(
                                emit(
                                    emit(
                                        emit(
                                            s4,
                                            SpecOp::Jump { block: head_b, args: Seq::empty() },
                                        ),
                                        SpecOp::SwitchToBlock { block: cont_b },
                                    ),
                                    SpecOp::SealBlock { block: head_b },
                                ),
                                SpecOp::SealBlock { block: cont_b },
                            ),
                            SpecOp::Iconst { value: 0 },
                        ),
                    }
                },
            }
        },
        SpecIr::Variable { index, typ } => {
            let tys = slots(m.classes, id, typ, m.classes.len());
            if index >= st.offsets.len() {
                Err(LowerError::BadVariable)
            } else if st.offsets[index as int] + tys.len() > usize::MAX {
                Err(LowerError::TooLarge)
            } else {
                Ok(use_vars(st, st.offsets[index as int], tys.len()))
            }
        },
        SpecIr::Assign { store, value } => match *store {
            SpecIr::Variable { index, typ } => {
                let tys = slots(m.classes, id, typ, m.classes.len());
                if index >= st.offsets.len() {
                    Err(LowerError::BadVariable)
                } else if st.offsets[index as int] + tys.len() > usize::MAX {
                    Err(LowerError::TooLarge)
                } else {
                    match trans(m, id, st, *value) {
                        Err(e) => Err(e),
                        Ok((v, s1)) => if v.len() < tys.len() {
                            Err(LowerError::NoValue)
                        } else {
                            Ok((v, def_vars(s1, st.offsets[index as int], v, tys.len())))
                        },
                    }
                }
            },
            _ => Err(LowerError::BadAssignTarget),
        },
        SpecIr::Call { callee, args, ret } => match trans(m, id, st, *callee) {
            Err(e) => Err(e),
            Ok((_, s1)) => match callee_of(m, id, type_of(*callee)) {
                None => Err(LowerError::BadCallee),
                Some(func) => match trans_args(m, id, s1, args, args.len()) {
                    Err(e) => Err(e),
                    Ok((handed_over, s2)) => {
                        let results = slots(
                            m.classes,
                            id,
                            m.funcs[func as int].ret_type,
                            m.classes.len(),
                        ).len();
                        Ok(
                            (
                                Seq::new(
                                    results,
                                    |i: int| ValueRef { op: s2.ops.len() as usize, result: i as usize },
                                ),
                                emit(
                                    s2,
                                    SpecOp::Call {
                                        func,
                                        args: handed_over,
                                        results: results as usize,
                                    },
                                ),
                            ),
                        )
                    },
                },
            },
        },
    }
}

/// The translation of the first `n` of `exprs`, one after the other; the
/// values are those of the last of them.
pub open spec fn trans_block(m: SpecIrModule, id: usize, st: Lowered, exprs: Seq<SpecIr>, n: nat) -> Out
    decreases exprs, n,
{
    if n == 0 || n > exprs.len() {
        Ok((Seq::empty(), st))
    } else {
        match trans_block(m, id, st, exprs, (n - 1) as nat) {
            Err(e) => Err(e),
            Ok((_, s1)) => trans(m, id, s1, exprs[n - 1]),
        }
    }
}

/// The translation of the first `n` of `exprs`, one after the other; the
/// values are those of all of them, in order.
pub open spec fn trans_args(m: SpecIrModule, id: usize, st: Lowered, exprs: Seq<SpecIr>, n: nat) -> Out
    decreases exprs, n,
{
    if n == 0 || n > exprs.len() {
        Ok((Seq::empty(), st))
    } else {
        match trans_args(m, id, st, exprs, (n - 1) as nat) {
            Err(e) => Err(e),
            Ok((values, s1)) => match trans(m, id, s1, exprs[n - 1]) {
                Err(e) => Err(e),
                Ok((more, s2)) => Ok((values + more, s2)),
            },
        }
    }
}

/// Once an expression of a block cannot be lowered, the block cannot.
pub proof fn lemma_block_stays_failed(
    m: SpecIrModule,
    id: usize,
    st: Lowered,
    exprs: Seq<SpecIr>,
    n: int,
)
    requires
        0 <= n <= exprs.len(),
        trans_block(m, id, st, exprs, n as nat) is Err,
    ensures
        trans_block(m, id, st, exprs, exprs.len()) == trans_block(m, id, st, exprs, n as nat),
    decreases exprs.len() - n,
{
    if n < exprs.len() {
        lemma_block_stays_failed(m, id, st, exprs, n + 1);
    }
}

/// Once an argument cannot be lowered, the arguments cannot.
pub proof fn lemma_args_stay_failed(
    m: SpecIrModule,
    id: usize,
    st: Lowered,
    exprs: Seq<SpecIr>,
    n: int,
)
    requires
        0 <= n <= exprs.len(),
        trans_args(m, id, st, exprs, n as nat) is Err,
    ensures
        trans_args(m, id, st, exprs, exprs.len()) == trans_args(m, id, st, exprs, n as nat),
    decreases exprs.len() - n,
{
    if n < exprs.len() {
        lemma_args_stay_failed(m, id, st, exprs, n + 1);
    }
}

/// What the outcome of a step is to specifications.
pub open spec fn out_view<'b>(
    before: FnTranslator<'b>,
    after: FnTranslator<'b>,
    r: Result<Vec<ValueRef>, LowerError>,
    out: Out,
) -> bool {
    match out {
        Ok((values, st)) => r is Ok && r->Ok_0@ == values && before.becomes(after, st),
        Err(e) => r == Err::<Vec<ValueRef>, LowerError>(e) && after.module == before.module
            && after.func == before.func && after.id == before.id,
    }
}

fn value(v: ValueRef) -> (r: Vec<ValueRef>)
    ensures
        r@ == seq![v],
{
    let mut out: Vec<ValueRef> = Vec::new();
    out.push(v);
    out
}

impl<'b> FnTranslator<'b> {
    fn one(&mut self, op: Op) -> (r: Vec<ValueRef>)
        ensures
            r@ == seq![next_value(old(self).state())],
            old(self).becomes(*final(self), emit(old(self).state(), op@)),
            final(self).local_offsets == old(self).local_offsets,
    {
        let at = self.emit(op);
        value(ValueRef { op: at, result: 0 })
    }

    fn jump(&mut self, block: usize, args: Vec<ValueRef>)
        ensures
            old(self).becomes(
                *final(self),
                emit(old(self).state(), SpecOp::Jump { block, args: args@ }),
            ),
    {
        let _ = self.emit(Op::Jump { block, args });
    }

    fn br(&mut self, cond: ValueRef, then: usize, els: usize)
        ensures
            old(self).becomes(
                *final(self),
                emit(
                    emit(old(self).state(), SpecOp::Brz { cond, block: els }),
                    SpecOp::Jump { block: then, args: Seq::empty() },
                ),
            ),
    {
        let _ = self.emit(Op::Brz { cond, block: els });
        self.jump(then, Vec::new());
    }

    fn set_cont_params(&mut self, phi: bool, cont: usize, typ: &Type) -> (r: Vec<ValueRef>)
        requires
            old(self).module.wf(),
        ensures
            ({
                let m = old(self).module@;
                let tys = if phi {
                    slots(m.classes, old(self).id, *typ, m.classes.len())
                } else {
                    Seq::empty()
                };
                let (values, st) = append_params(old(self).state(), cont, tys, tys.len());
                r@ == values && old(self).becomes(*final(self), st)
            }),
    {
        let ghost start = self.state();
        let mut out: Vec<ValueRef> = Vec::new();
        if phi {
            let tys = translate_type(typ, self.module, self.id);
            let mut i: usize = 0;
            while i < tys.len()
                invariant
                    i <= tys@.len(),
                    out@ == append_params(start, cont, tys@, i as nat).0,
                    old(self).becomes(*self, append_params(start, cont, tys@, i as nat).1),
                decreases tys@.len() - i,
            {
                let at = self.emit(Op::AppendBlockParam { block: cont, ty: tys[i] });
                out.push(ValueRef { op: at, result: 0 });
                i += 1;
            }
        }
        out
    }

    fn jump_cont(&mut self, cont: usize, phi: bool, value: Vec<ValueRef>)
        ensures
            old(self).becomes(
                *final(self),
                emit(old(self).state(), SpecOp::Jump { block: cont, args: handed(phi, value@) }),
            ),
    {
        if phi {
            self.jump(cont, value);
        } else {
            self.jump(cont, Vec::new());
        }
    }

    fn binary(
        &mut self,
        left: &Expr,
        op: TKind,
        right: &Expr,
        Ghost(parent): Ghost<Expr>,
    ) -> (r: Result<Vec<ValueRef>, LowerError>)
        requires
            old(self).module.wf(),
            decreases_to!(parent => *left),
            decreases_to!(parent => *right),
        ensures
            out_view(
                *old(self),
                *final(self),
                r,
                match trans(old(self).module@, old(self).id, old(self).state(), left@) {
                    Err(e) => Err(e),
                    Ok((l, s1)) => match trans(old(self).module@, old(self).id, s1, right@) {
                        Err(e) => Err(e),
                        Ok((rv, s2)) => if l.len() == 0 || rv.len() == 0 {
                            Err(LowerError::NoValue)
                        } else {
                            match binary_op(type_of(left@), op, l[0], rv[0]) {
                                Some(made) => one(s2, made),
                                None => Err(LowerError::UnknownOperator),
                            }
                        },
                    },
                },
            ),
        decreases parent, 0nat,
    {
        let l = match self.trans_expr(left) {
            Ok(v) => v,
            Err(e) => return Err(e),
        };
        let r = match self.trans_expr(right) {
            Ok(v) => v,
            Err(e) => return Err(e),
        };
        if l.len() == 0 || r.len() == 0 {
            return Err(LowerError::NoValue);
        }
        let left_v = l[0];
        let right_v = r[0];
        let made = if left.typ().is_int() {
            match op {
                TKind::Plus => Op::Int { op: IntOp::Iadd, left: left_v, right: right_v },
                TKind::Minus => Op::Int { op: IntOp::Isub, left: left_v, right: right_v },
                TKind::Star => Op::Int { op: IntOp::Imul, left: left_v, right: right_v },
                TKind::Slash => Op::Int { op: IntOp::Udiv, left: left_v, right: right_v },
                _ => match intcmp(op) {
                    Some(cond) => Op::Icmp { cond, left: left_v, right: right_v },
                    None => return Err(LowerError::UnknownOperator),
                },
            }
        } else {
            match op {
                TKind::Plus => Op::Float { op: FloatOp::Fadd, left: left_v, right: right_v },
                TKind::Minus => Op::Float { op: FloatOp::Fsub, left: left_v, right: right_v },
                TKind::Star => Op::Float { op: FloatOp::Fmul, left: left_v, right: right_v },
                TKind::Slash => Op::Float { op: FloatOp::Fdiv, left: left_v, right: right_v },
                _ => match floatcmp(op) {
                    Some(cond) => Op::Fcmp { cond, left: left_v, right: right_v },
                    None => return Err(LowerError::UnknownOperator),
                },
            }
        };
        Ok(self.one(made))
    }

    fn constant(&mut self, constant: &Constant) -> (r: Result<Vec<ValueRef>, LowerError>)
        ensures
            out_view(
                *old(self),
                *final(self),
                r,
                trans(
                    old(self).module@,
                    old(self).id,
                    old(self).state(),
                    SpecIr::Constant(constant@),
                ),
            ),
    {
        match constant {
            Constant::Bool(val) => Ok(self.one(Op::Bconst { value: *val })),
            Constant::Int(i) => Ok(self.one(Op::Iconst { value: *i })),
            Constant::Float(text) => Ok(self.one(Op::F64const { text: text.clone() })),
            Constant::String(_) => Err(LowerError::Text),
            Constant::Function(_) => Ok(self.one(Op::Iconst { value: 0 })),
            Constant::Class(_) => Err(LowerError::ClassValue),
        }
    }

    fn if_(
        &mut self,
        cond: &Expr,
        phi: bool,
        then: &Expr,
        els: &Expr,
        Ghost(parent): Ghost<Expr>,
    ) -> (r: Result<Vec<ValueRef>, LowerError>)
        requires
            old(self).module.wf(),
            decreases_to!(parent => *cond),
            decreases_to!(parent => *then),
            decreases_to!(parent => *els),
        ensures
            out_view(
                *old(self),
                *final(self),
                r,
                trans(
                    old(self).module@,
                    old(self).id,
                    old(self).state(),
                    SpecIr::If {
                        cond: Box::new(cond@),
                        then: Box::new(then@),
                        els: Box::new(els@),
                        phi,
                    },
                ),
            ),
        decreases parent, 0nat,
    {
        let condition = match self.trans_expr(cond) {
            Ok(v) => v,
            Err(e) => return Err(e),
        };
        if condition.len() == 0 {
            return Err(LowerError::NoValue);
        }
        let then_b = self.new_block();
        let else_b = self.new_block();
        let cont_b = self.new_block();
        let merged = self.set_cont_params(phi, cont_b, &then.typ());
        self.br(condition[0], then_b, else_b);
        self.switch_block(then_b);
        self.seal_block(then_b);
        let then_val = match self.trans_expr(then) {
            Ok(v) => v,
            Err(e) => return Err(e),
        };
        self.jump_cont(cont_b, phi, then_val);
        self.switch_block(else_b);
        self.seal_block(else_b);
        let els_val = match self.trans_expr(els) {
            Ok(v) => v,
            Err(e) => return Err(e),
        };
        self.jump_cont(cont_b, phi, els_val);
        self.switch_block(cont_b);
        self.seal_block(cont_b);
        Ok(merged)
    }

    fn while_expr(&mut self, cond: &Expr, body: &Expr, Ghost(parent): Ghost<Expr>) -> (r: Result<
        Vec<ValueRef>,
        LowerError,
    >)
        requires
            old(self).module.wf(),
            decreases_to!(parent => *cond),
            decreases_to!(parent => *body),
        ensures
            out_view(
                *old(self),
                *final(self),
                r,
                trans(
                    old(self).module@,
                    old(self).id,
                    old(self).state(),
                    SpecIr::While { cond: Box::new(cond@), body: Box::new(body@) },
                ),
            ),
        decreases parent, 0nat,
    {
        let head_b = self.new_block();
        let body_b = self.new_block();
        let cont_b = self.new_block();
        self.jump(head_b, Vec::new());
        self.switch_block(head_b);
        let condition = match self.trans_expr(cond) {
            Ok(v) => v,
            Err(e) => return Err(e),
        };
        if condition.len() == 0 {
            return Err(LowerError::NoValue);
        }
        self.br(condition[0], body_b, cont_b);
        self.switch_block(body_b);
        self.seal_block(body_b);
        match self.trans_expr(body) {
            Ok(_) => {},
            Err(e) => return Err(e),
        }
        self.jump(head_b, Vec::new());
        self.switch_block(cont_b);
        self.seal_block(head_b);
        self.seal_block(cont_b);
        Ok(self.one(Op::Iconst { value: 0 }))
    }

    fn variable_expr(&mut self, index: usize, typ: &Type) -> (r: Result<Vec<ValueRef>, LowerError>)
        requires
            old(self).module.wf(),
        ensures
            out_view(
                *old(self),
                *final(self),
                r,
                trans(
                    old(self).module@,
                    old(self).id,
                    old(self).state(),
                    SpecIr::Variable { index, typ: *typ },
                ),
            ),
    {
        let ghost start = self.state();
        if index >= offsets_len(&self.local_offsets) {
            return Err(LowerError::BadVariable);
        }
        let offset = offsets_at(&self.local_offsets, index);
        let tys = translate_type(typ, self.module, self.id);
        if tys.len() > usize::MAX - offset {
            return Err(LowerError::TooLarge);
        }
        let mut vals: Vec<ValueRef> = Vec::new();
        let mut i: usize = 0;
        while i < tys.len()
            invariant
                i <= tys@.len(),
                offset + tys@.len() <= usize::MAX,
                self.local_offsets == old(self).local_offsets,
                vals@ == use_vars(start, offset, i as nat).0,
                old(self).becomes(*self, use_vars(start, offset, i as nat).1),
            decreases tys@.len() - i,
        {
            let at = self.emit(Op::UseVar { var: offset + i });
            vals.push(ValueRef { op: at, result: 0 });
            i += 1;
        }
        Ok(vals)
    }

    fn assign_var(
        &mut self,
        index: usize,
        value: &Expr,
        typ: &Type,
        Ghost(parent): Ghost<Expr>,
    ) -> (r: Result<Vec<ValueRef>, LowerError>)
        requires
            old(self).module.wf(),
            decreases_to!(parent => *value),
        ensures
            out_view(
                *old(self),
                *final(self),
                r,
                trans(
                    old(self).module@,
                    old(self).id,
                    old(self).state(),
                    SpecIr::Assign {
                        store: Box::new(SpecIr::Variable { index, typ: *typ }),
                        value: Box::new(value@),
                    },
                ),
            ),
        decreases parent, 0nat,
    {
        if index >= offsets_len(&self.local_offsets) {
            return Err(LowerError::BadVariable);
        }
        let offset = offsets_at(&self.local_offsets, index);
        let tys = translate_type(typ, self.module, self.id);
        if tys.len() > usize::MAX - offset {
            return Err(LowerError::TooLarge);
        }
        let value = match self.trans_expr(value) {
            Ok(v) => v,
            Err(e) => return Err(e),
        };
        if value.len() < tys.len() {
            return Err(LowerError::NoValue);
        }
        let ghost start = self.state();
        let mut i: usize = 0;
        while i < tys.len()
            invariant
                i <= tys@.len(),
                tys@.len() <= value@.len(),
                offset + tys@.len() <= usize::MAX,
                old(self).becomes(*self, def_vars(start, offset, value@, i as nat)),
            decreases tys@.len() - i,
        {
            let _ = self.emit(Op::DefVar { var: offset + i, value: value[i] });
            i += 1;
        }
        Ok(value)
    }

    #[verifier::loop_isolation(false)]
    fn call(
        &mut self,
        callee: &Expr,
        args: &Vec<Expr>,
        ret: Ghost<Type>,
        Ghost(parent): Ghost<Expr>,
    ) -> (r: Result<Vec<ValueRef>, LowerError>)
        requires
            old(self).module.wf(),
            decreases_to!(parent => *callee),
            decreases_to!(parent => *args),
        ensures
            out_view(
                *old(self),
                *final(self),
                r,
                trans(
                    old(self).module@,
                    old(self).id,
                    old(self).state(),
                    SpecIr::Call { callee: Box::new(callee@), args: ir_views(args@), ret: ret@ },
                ),
            ),
        decreases parent, 0nat,
    {
        let ghost m = self.module@;
        match self.trans_expr(callee) {
            Ok(_) => {},
            Err(e) => return Err(e),
        }
        let func = match callee.typ() {
            Type::Function(f) => if f.module == self.id && f.index < self.module.funcs.len() {
                f.index
            } else {
                return Err(LowerError::BadCallee);
            },
            _ => return Err(LowerError::BadCallee),
        };
        let ghost s1 = self.state();
        let ghost views = ir_views(args@);
        let mut call_args: Vec<ValueRef> = Vec::new();
        let n = args.len();
        let mut i: usize = 0;
        while i < n
            invariant
                i <= n,
                n == args@.len(),
                views == ir_views(args@),
                m == old(self).module@,
                self.module.wf(),
                decreases_to!(parent => *args),
                trans_args(m, self.id, s1, views, i as nat) is Ok,
                call_args@ == trans_args(m, self.id, s1, views, i as nat)->Ok_0.0,
                old(self).becomes(*self, trans_args(m, self.id, s1, views, i as nat)->Ok_0.1),
            decreases n - i,
        {
            match self.trans_expr(&args[i]) {
                Err(e) => {
                    proof {
                        lemma_args_stay_failed(m, self.id, s1, views, i + 1);
                    }
                    return Err(e);
                },
                Ok(res) => {
                    let mut res = res;
                    call_args.append(&mut res);
                },
            }
            i += 1;
        }
        let module = self.module;
        let results = translate_type(&module.funcs[func].ret_type, module, self.id).len();
        let at = self.emit(Op::Call { func, args: call_args, results });
        let mut out: Vec<ValueRef> = Vec::new();
        let mut k: usize = 0;
        while k < results
            invariant
                k <= results,
                out@.len() == k,
                forall|j: int| 0 <= j < k ==> out@[j] == (ValueRef { op: at, result: j as usize }),
            decreases results - k,
        {
            out.push(ValueRef { op: at, result: k });
            k += 1;
        }
        proof {
            assert(out@ =~= Seq::new(
                results as nat,
                |i: int| ValueRef { op: at, result: i as usize },
            ));
        }
        Ok(out)
    }

    #[verifier::loop_isolation(false)]
    fn block(&mut self, insts: &Vec<Expr>, Ghost(parent): Ghost<Expr>) -> (r: Result<
        Vec<ValueRef>,
        LowerError,
    >)
        requires
            old(self).module.wf(),
            decreases_to!(parent => *insts),
        ensures
            out_view(
                *old(self),
                *final(self),
                r,
                trans_block(
                    old(self).module@,
                    old(self).id,
                    old(self).state(),
                    ir_views(insts@),
                    insts@.len(),
                ),
            ),
        decreases parent, 0nat,
    {
        let ghost m = self.module@;
        let ghost start = self.state();
        let ghost views = ir_views(insts@);
        let mut value: Vec<ValueRef> = Vec::new();
        let n = insts.len();
        let mut i: usize = 0;
        while i < n
            invariant
                i <= n,
                n == insts@.len(),
                views == ir_views(insts@),
                m == old(self).module@,
                self.module.wf(),
                decreases_to!(parent => *insts),
                trans_block(m, self.id, start, views, i as nat) is Ok,
                value@ == trans_block(m, self.id, start, views, i as nat)->Ok_0.0,
                old(self).becomes(*self, trans_block(m, self.id, start, views, i as nat)->Ok_0.1),
            decreases n - i,
        {
            match self.trans_expr(&insts[i]) {
                Err(e) => {
                    proof {
                        lemma_block_stays_failed(m, self.id, start, views, i + 1);
                    }
                    return Err(e);
                },
                Ok(res) => {
                    value = res;
                },
            }
            i += 1;
        }
        Ok(value)
    }

    /// Writes the instructions of `expr` and hands back the values that it
    /// yields.
    pub fn trans_expr(&mut self, expr: &Expr) -> (r: Result<Vec<ValueRef>, LowerError>)
        requires
            old(self).module.wf(),
        ensures
            out_view(
                *old(self),
                *final(self),
                r,
                trans(old(self).module@, old(self).id, old(self).state(), expr@),
            ),
        decreases *expr, 1nat,
    {
        let ghost parent = *expr;
        match expr.inner() {
            IExpr::Binary { left, op, right } => self.binary(left, op.kind, right, Ghost(parent)),
            IExpr::Constant(constant) => self.constant(constant),
            IExpr::Block(insts) => {
                proof {
                    assert(expr@->Block_0 =~= ir_views(insts@));
                }
                self.block(insts, Ghost(parent))
            },
            IExpr::If { cond, then, els, phi } => self.if_(cond, *phi, then, els, Ghost(parent)),
            IExpr::While { cond, body } => self.while_expr(cond, body, Ghost(parent)),
            IExpr::Variable { index, typ } => self.variable_expr(*index, typ),
            IExpr::Assign { store, value } => match store.inner() {
                IExpr::Variable { index, typ } => self.assign_var(*index, value, typ, Ghost(parent)),
                _ => Err(LowerError::BadAssignTarget),
            },
            IExpr::Call { callee, args } => {
                proof {
                    assert(expr@->Call_args =~= ir_views(args@));
                }
                self.call(callee, args, Ghost(type_of(expr@)), Ghost(parent))
            },
            IExpr::Poison => Err(LowerError::Poison),
        }
    }
}

fn intcmp(tok: TKind) -> (r: Option<Cond>)
    ensures
        r == cond_of(tok),
{
    match tok {
        TKind::EqualEqual => Some(Cond::Equal),
        TKind::BangEqual => Some(Cond::NotEqual),
        TKind::Greater => Some(Cond::Greater),
        TKind::GreaterEqual => Some(Cond::GreaterEqual),
        TKind::Less => Some(Cond::Less),
        TKind::LessEqual => Some(Cond::LessEqual),
        _ => None,
    }
}

fn floatcmp(tok: TKind) -> (r: Option<Cond>)
    ensures
        r == cond_of(tok),
{
    match tok {
        TKind::EqualEqual => Some(Cond::Equal),
        TKind::BangEqual => Some(Cond::NotEqual),
        TKind::Greater => Some(Cond::Greater),
        TKind::GreaterEqual => Some(Cond::GreaterEqual),
        TKind::Less => Some(Cond::Less),
        TKind::LessEqual => Some(Cond::LessEqual),
        _ => None,
    }
}

} // verus!
