//! The compiler of function bodies: from syntax trees to typed
//! expressions.
//!
//! Names are looked up in a stack of scopes, the innermost first. A scope
//! gives each of its names a slot among the variables that are known so far:
//! the parameters of the function, then its local variables in the order in
//! which they are declared.

use crate::compiler::ir::if_node;
use crate::compiler::ir::ir_views;
use crate::compiler::ir::tables::scope_get;
use crate::compiler::ir::tables::scope_insert;
use crate::compiler::ir::tables::scope_new;
use crate::compiler::ir::tables::scope_slots;
use crate::compiler::ir::type_of;
use crate::compiler::ir::constant_of;
use crate::compiler::ir::var_views;
use crate::compiler::ir::Constant;
use crate::compiler::ir::Expr;
use crate::compiler::ir::FuncRef;
use crate::compiler::ir::Function;
use crate::compiler::ir::SpecConstant;
use crate::compiler::ir::SpecIr;
use crate::compiler::ir::SpecIrFunction;
use crate::compiler::ir::SpecVarStore;
use crate::compiler::ir::Type;
use crate::compiler::ir::VarStore;
use crate::compiler::module::resolver::first_named;
use crate::compiler::module::resolver::lemma_first_named_grows;
use crate::error::error_views;
use crate::error::Error;
use crate::error::ErrorKind;
use crate::error::SpecError;
use crate::error::SpecErrorKind;
use crate::lexer::binary_logic;
use crate::lexer::SpecToken;
use crate::lexer::TKind;
use crate::parser::ast;
use crate::parser::ast::EExpr;
use crate::parser::ast::SpecExpr;
use crate::smol_str::SmolStr;
use vstd::prelude::*;

verus! {

/// What a call needs to know of a function, as specifications see it.
pub struct Sig {
    pub name: Seq<u8>,
    pub params: Seq<Type>,
    pub ret: Type,
}

/// What a call needs to know of a function: its name, the types of its
/// parameters and the type it returns.
pub struct Signature {
    pub name: SmolStr,
    pub params: Vec<Type>,
    pub ret: Type,
}

impl View for Signature {
    type V = Sig;

    open spec fn view(&self) -> Sig {
        Sig { name: self.name@, params: self.params@, ret: self.ret }
    }
}

/// The views of the signatures of `sigs`, in order.
pub open spec fn sig_views(sigs: Seq<Signature>) -> Seq<Sig> {
    Seq::new(sigs.len(), |i: int| sigs[i]@)
}

/// The signature of `f`.
pub open spec fn sig_of(f: SpecIrFunction) -> Sig {
    Sig { name: f.name, params: Seq::new(f.params.len(), |i: int| f.params[i].ty), ret: f.ret_type }
}

/// The signatures of `funcs`, in order.
pub open spec fn sigs_of(funcs: Seq<SpecIrFunction>) -> Seq<Sig> {
    Seq::new(funcs.len(), |i: int| sig_of(funcs[i]))
}

/// The names of `sigs`, in order.
pub open spec fn sig_names(sigs: Seq<Sig>) -> Seq<Seq<u8>> {
    Seq::new(sigs.len(), |i: int| sigs[i].name)
}

/// The signatures of `funcs`, in order.
pub fn signatures(funcs: &Vec<Function>) -> (r: Vec<Signature>)
    ensures
        sig_views(r@) == sigs_of(crate::compiler::ir::func_views(funcs@)),
{
    let mut out: Vec<Signature> = Vec::new();
    let mut i: usize = 0;
    while i < funcs.len()
        invariant
            i <= funcs@.len(),
            out@.len() == i,
            forall|j: int| 0 <= j < i ==> (#[trigger] out@[j])@ == sig_of(funcs@[j]@),
        decreases funcs@.len() - i,
    {
        let f = &funcs[i];
        let mut params: Vec<Type> = Vec::new();
        let mut k: usize = 0;
        while k < f.params.len()
            invariant
                k <= f.params@.len(),
                params@.len() == k,
                forall|j: int| 0 <= j < k ==> #[trigger] params@[j] == f.params@[j].ty,
            decreases f.params@.len() - k,
        {
            params.push(f.params[k].ty);
            k += 1;
        }
        let sig = Signature { name: f.name.clone(), params, ret: f.ret_type };
        assert(sig@.params =~= sig_of(f@).params);
        out.push(sig);
        i += 1;
    }
    assert(sig_views(out@) =~= sigs_of(crate::compiler::ir::func_views(funcs@)));
    out
}

/// What a body is compiled against: the number of its module and the
/// signatures of the functions of that module.
pub struct Ctx {
    pub id: usize,
    pub sigs: Seq<Sig>,
}

/// Where the compilation of a body stands: the local variables declared so
/// far, all variables known so far, the scopes that are open and the
/// failures met.
pub struct Scoped {
    pub locals: Seq<SpecVarStore>,
    pub vars: Seq<SpecVarStore>,
    pub scopes: Seq<Map<Seq<u8>, usize>>,
    pub errors: Seq<SpecError>,
}

/// `st` with one more failure.
pub open spec fn fault(st: Scoped, kind: SpecErrorKind, start: nat) -> Scoped {
    Scoped { errors: st.errors.push(SpecError { kind, start }), ..st }
}

/// `st`, with one more failure where `cond` holds.
pub open spec fn fault_if(st: Scoped, cond: bool, kind: SpecErrorKind, start: nat) -> Scoped {
    if cond {
        fault(st, kind, start)
    } else {
        st
    }
}

/// The slot that `name` stands for in the innermost scope that knows it.
pub open spec fn lookup(scopes: Seq<Map<Seq<u8>, usize>>, name: Seq<u8>) -> Option<usize>
    decreases scopes.len(),
{
    if scopes.len() == 0 {
        None
    } else if scopes.last().dom().contains(name) {
        Some(scopes.last()[name])
    } else {
        lookup(scopes.drop_last(), name)
    }
}

/// The variable that `name` stands for, if it stands for one.
pub open spec fn local_of(st: Scoped, name: Seq<u8>) -> Option<SpecVarStore> {
    match lookup(st.scopes, name) {
        Some(slot) => if slot < st.vars.len() {
            Some(st.vars[slot as int])
        } else {
            None
        },
        None => None,
    }
}

/// `st` with one more scope, which knows no name yet.
pub open spec fn begin(st: Scoped) -> Scoped {
    Scoped { scopes: st.scopes.push(Map::empty()), ..st }
}

/// `st` without its innermost scope.
pub open spec fn end(st: Scoped) -> Scoped {
    if st.scopes.len() > 0 {
        Scoped { scopes: st.scopes.drop_last(), ..st }
    } else {
        st
    }
}

/// `st` with the variable `var` known, under its name, in the innermost
/// scope.
pub open spec fn bind(st: Scoped, var: SpecVarStore) -> Scoped {
    Scoped {
        vars: st.vars.push(var),
        scopes: if st.scopes.len() > 0 {
            st.scopes.update(
                st.scopes.len() - 1,
                st.scopes.last().insert(var.name, st.vars.len() as usize),
            )
        } else {
            st.scopes
        },
        ..st
    }
}

/// `st` with the local variable `var` declared.
pub open spec fn declare(st: Scoped, var: SpecVarStore) -> Scoped {
    let bound = bind(st, var);
    Scoped { locals: st.locals.push(var), ..bound }
}

/// `st` with the first `n` of `params` known.
pub open spec fn bind_all(st: Scoped, params: Seq<SpecVarStore>, n: nat) -> Scoped
    decreases n,
{
    if n == 0 || n > params.len() {
        st
    } else {
        bind(bind_all(st, params, (n - 1) as nat), params[n - 1])
    }
}

/// Where the compilation of a body starts: one scope, which knows the
/// parameters.
pub open spec fn initial(params: Seq<SpecVarStore>, errors: Seq<SpecError>) -> Scoped {
    bind_all(
        Scoped { locals: Seq::empty(), vars: Seq::empty(), scopes: seq![Map::empty()], errors },
        params,
        params.len(),
    )
}

/// What is wrong with a binary expression whose sides are of the types
/// `lty` and `rty`, if anything is; `store_ok` says whether the left side
/// can be assigned to.
pub open spec fn binary_fault(lty: Type, rty: Type, op: SpecToken, store_ok: bool) -> Option<
    SpecErrorKind,
> {
    let logic = binary_logic(op.kind);
    if lty != rty {
        Some(SpecErrorKind::E500 { left: lty, right: rty })
    } else if op.kind == TKind::Equal {
        if store_ok {
            None
        } else {
            Some(SpecErrorKind::E505)
        }
    } else if (logic && !lty.allow_logic()) || (!logic && !lty.allow_math()) {
        Some(SpecErrorKind::E501 { op: op.lex, ty: lty })
    } else {
        None
    }
}

/// The typed expression of a binary expression: an assignment where the
/// operator is `=` and the sides agree in type, a binary node else.
pub open spec fn binary_node(left: SpecIr, op: SpecToken, right: SpecIr) -> SpecIr {
    if type_of(left) == type_of(right) && op.kind == TKind::Equal {
        SpecIr::Assign { store: Box::new(left), value: Box::new(right) }
    } else {
        SpecIr::Binary { left: Box::new(left), op, right: Box::new(right) }
    }
}

/// The signature of what is called, where a value of type `ty` can be
/// called.
pub open spec fn callee_sig(ctx: Ctx, ty: Type) -> Option<Sig> {
    match ty {
        Type::Function(f) => if f.module == ctx.id && f.index < ctx.sigs.len() {
            Some(ctx.sigs[f.index as int])
        } else {
            None
        },
        _ => None,
    }
}

/// `st` with a failure for each of the first `n` arguments whose type is
/// not the one declared.
pub open spec fn mismatches(st: Scoped, args: Seq<SpecIr>, params: Seq<Type>, start: nat, n: nat) -> Scoped
    decreases n,
{
    if n == 0 || n > args.len() || n > params.len() {
        st
    } else {
        fault_if(
            mismatches(st, args, params, start, (n - 1) as nat),
            type_of(args[n - 1]) != params[n - 1],
            SpecErrorKind::E508 {
                expected: params[n - 1],
                found: type_of(args[n - 1]),
                pos: (n - 1) as usize,
            },
            start,
        )
    }
}

pub open spec fn smaller(a: nat, b: nat) -> nat {
    if a <= b {
        a
    } else {
        b
    }
}

/// The typed expression of `e`, and where compilation stands after it.
pub open spec fn compile(ctx: Ctx, st: Scoped, e: SpecExpr) -> (SpecIr, Scoped)
    decreases e, 0nat,
{
    match e {
        SpecExpr::Literal { value, .. } => (SpecIr::Constant(constant_of(value)), st),
        SpecExpr::Binary { left, op, right, .. } => {
            let (l, s1) = compile(ctx, st, *left);
            let (r, s2) = compile(ctx, s1, *right);
            (
                binary_node(l, op, r),
                match binary_fault(type_of(l), type_of(r), op, l is Variable) {
                    Some(kind) => fault(s2, kind, op.start),
                    None => s2,
                },
            )
        },
        SpecExpr::Block { exprs, .. } => {
            let (irs, s1) = compile_all(ctx, begin(st), exprs, exprs.len());
            (SpecIr::Block(irs), end(s1))
        },
        SpecExpr::If { cond, then, els, .. } => {
            let (c, s1) = compile(ctx, st, *cond);
            let s2 = fault_if(s1, type_of(c) != Type::Bool, SpecErrorKind::E502, cond.start());
            let (t, s3) = compile(ctx, s2, *then);
            match els {
                Some(x) => {
                    let (el, s4) = compile(ctx, s3, *x);
                    (if_node(c, t, Some(el)), s4)
                },
                None => (if_node(c, t, None), s3),
            }
        },
        SpecExpr::While { cond, body, .. } => {
            let (c, s1) = compile(ctx, st, *cond);
            let s2 = fault_if(s1, type_of(c) != Type::Bool, SpecErrorKind::E502, cond.start());
            let (b, s3) = compile(ctx, s2, *body);
            (SpecIr::While { cond: Box::new(c), body: Box::new(b) }, s3)
        },
        SpecExpr::Identifier { name, .. } => match local_of(st, name.lex) {
            Some(v) => (SpecIr::Variable { index: v.index, typ: v.ty }, st),
            None => match first_named(sig_names(ctx.sigs), name.lex) {
                Some(i) => (
                    SpecIr::Constant(
                        SpecConstant::Function(FuncRef { module: ctx.id, index: i as usize }),
                    ),
                    st,
                ),
                None => (
                    SpecIr::Poison,
                    fault(st, SpecErrorKind::E503 { name: name.lex }, name.start),
                ),
            },
        },
        SpecExpr::Variable { final_, name, value, .. } => {
            let (v, s1) = compile(ctx, st, *value);
            let ty = type_of(v);
            let s2 = fault_if(s1, !ty.allow_assignment(), SpecErrorKind::E504 { ty }, name.start);
            let local = SpecVarStore {
                ty,
                name: name.lex,
                index: s2.locals.len() as usize,
                mutable: !final_,
            };
            (
                SpecIr::Assign {
                    store: Box::new(SpecIr::Variable { index: local.index, typ: ty }),
                    value: Box::new(v),
                },
                declare(s2, local),
            )
        },
        SpecExpr::Unary { op, right, .. } => {
            let (r, s1) = compile(ctx, st, *right);
            (
                SpecIr::Poison,
                fault(s1, SpecErrorKind::E501 { op: op.lex, ty: type_of(r) }, op.start),
            )
        },
        SpecExpr::Call { callee, args, .. } => {
            let start = callee.start();
            let (c, s1) = compile(ctx, st, *callee);
            match callee_sig(ctx, type_of(c)) {
                None => (
                    SpecIr::Poison,
                    fault(s1, SpecErrorKind::E506 { ty: type_of(c) }, start),
                ),
                Some(sig) => {
                    let (irs, s2) = compile_all(ctx, s1, args, args.len());
                    let s3 = fault_if(
                        s2,
                        irs.len() != sig.params.len(),
                        SpecErrorKind::E507 {
                            expected: sig.params.len() as usize,
                            found: irs.len() as usize,
                        },
                        start,
                    );
                    (
                        SpecIr::Call { callee: Box::new(c), args: irs, ret: sig.ret },
                        mismatches(
                            s3,
                            irs,
                            sig.params,
                            start,
                            smaller(irs.len(), sig.params.len()),
                        ),
                    )
                },
            }
        },
    }
}

/// The typed expressions of the first `n` of `es`, compiled one after the
/// other, and where compilation stands after them.
pub open spec fn compile_all(ctx: Ctx, st: Scoped, es: Seq<SpecExpr>, n: nat) -> (
    Seq<SpecIr>,
    Scoped,
)
    decreases es, n,
{
    if n == 0 || n > es.len() {
        (Seq::empty(), st)
    } else {
        let (irs, s1) = compile_all(ctx, st, es, (n - 1) as nat);
        let (ir, s2) = compile(ctx, s1, es[n - 1]);
        (irs.push(ir), s2)
    }
}

/// The compiler of one function body.
pub struct ExprCompiler<'e> {
    pub sigs: &'e Vec<Signature>,
    pub id: usize,
    pub locals: Vec<VarStore>,
    pub vars: Vec<VarStore>,
    pub environments: Vec<hashbrown::HashMap<Vec<u8>, usize>>,
    pub errors: Vec<Error>,
}

/// What each of `scopes` knows, outermost first.
pub open spec fn scope_views(scopes: Seq<hashbrown::HashMap<Vec<u8>, usize>>) -> Seq<
    Map<Seq<u8>, usize>,
> {
    Seq::new(scopes.len(), |i: int| scope_slots(scopes[i]))
}

impl<'e> ExprCompiler<'e> {
    /// What the body is compiled against.
    pub open spec fn ctx(&self) -> Ctx {
        Ctx { id: self.id, sigs: sig_views(self.sigs@) }
    }

    /// Where compilation stands.
    pub open spec fn state(&self) -> Scoped {
        Scoped {
            locals: var_views(self.locals@),
            vars: var_views(self.vars@),
            scopes: scope_views(self.environments@),
            errors: error_views(self.errors@),
        }
    }

    /// Whether `next` is this compiler in the state `st`.
    pub open spec fn becomes(&self, next: ExprCompiler<'e>, st: Scoped) -> bool {
        &&& next.sigs == self.sigs
        &&& next.id == self.id
        &&& next.state() == st
    }

    fn err(&mut self, pos: usize, err: ErrorKind)
        ensures
            old(self).becomes(*final(self), fault(old(self).state(), err@, pos as nat)),
    {
        let ghost before = error_views(self.errors@);
        let e = Error::new(pos, err);
        self.errors.push(e);
        assert(error_views(self.errors@) =~= before.push(e@));
    }

    fn find_slot(&self, name: &Vec<u8>) -> (r: Option<usize>)
        ensures
            r == lookup(self.state().scopes, name@),
    {
        let ghost scopes = self.state().scopes;
        let mut i: usize = self.environments.len();
        proof {
            assert(scopes.subrange(0, i as int) =~= scopes);
        }
        while i > 0
            invariant
                i <= self.environments@.len(),
                scopes == self.state().scopes,
                lookup(scopes, name@) == lookup(scopes.subrange(0, i as int), name@),
            decreases i,
        {
            i -= 1;
            proof {
                assert(scopes.subrange(0, i + 1).drop_last() =~= scopes.subrange(0, i as int));
                assert(scopes.subrange(0, i + 1).last() == scope_slots(self.environments@[i as int]));
            }
            match scope_get(&self.environments[i], name) {
                Some(slot) => return Some(slot),
                None => {},
            }
        }
        None
    }

    fn find_local(&self, name: &SmolStr) -> (r: Option<&VarStore>)
        ensures
            match r {
                Some(v) => local_of(self.state(), name@) == Some(v@),
                None => local_of(self.state(), name@) is None,
            },
    {
        let key = name.as_bytes();
        match self.find_slot(&key) {
            Some(slot) => if slot < self.vars.len() {
                Some(&self.vars[slot])
            } else {
                None
            },
            None => None,
        }
    }

    fn find_function(&self, name: &SmolStr) -> (r: Option<FuncRef>)
        ensures
            r == match first_named(sig_names(self.ctx().sigs), name@) {
                Some(i) => Some(FuncRef { module: self.id, index: i as usize }),
                None => None,
            },
    {
        let ghost names = sig_names(self.ctx().sigs);
        let n = self.sigs.len();
        let mut k: usize = 0;
        proof {
            assert(names.subrange(0, 0) =~= Seq::empty());
        }
        while k < n
            invariant
                k <= n,
                n == self.sigs@.len(),
                names == sig_names(self.ctx().sigs),
                first_named(names.subrange(0, k as int), name@) is None,
            decreases n - k,
        {
            proof {
                assert(names.subrange(0, k + 1).drop_last() =~= names.subrange(0, k as int));
                assert(names.subrange(0, k + 1).last() == self.sigs@[k as int].name@);
            }
            if self.sigs[k].name.same(name) {
                proof {
                    lemma_first_named_grows(names, name@, k + 1);
                }
                return Some(FuncRef { module: self.id, index: k });
            }
            k += 1;
        }
        proof {
            assert(names.subrange(0, n as int) =~= names);
        }
        None
    }

    fn add_to_scope(&mut self, var: VarStore)
        ensures
            old(self).becomes(*final(self), bind(old(self).state(), var@)),
            final(self).locals == old(self).locals,
    {
        let ghost before = self.state();
        let slot = self.vars.len();
        let key = var.name.as_bytes();
        let n = self.environments.len();
        if n > 0 {
            scope_insert(&mut self.environments[n - 1], key, slot);
        }
        self.vars.push(var);
        proof {
            assert(var_views(self.vars@) =~= before.vars.push(var@));
            assert(self.state().scopes =~= bind(before, var@).scopes);
        }
    }

    fn begin_scope(&mut self)
        ensures
            old(self).becomes(*final(self), begin(old(self).state())),
    {
        let ghost before = self.state();
        self.environments.push(scope_new());
        assert(self.state().scopes =~= before.scopes.push(Map::empty()));
    }

    fn end_scope(&mut self)
        ensures
            old(self).becomes(*final(self), end(old(self).state())),
    {
        let ghost before = self.state();
        let _ = self.environments.pop();
        assert(self.state().scopes =~= end(before).scopes);
    }

    fn add_local(&mut self, name: SmolStr, ty: Type, mutable: bool) -> (r: VarStore)
        ensures
            r@ == (SpecVarStore {
                ty,
                name: name@,
                index: old(self).locals@.len() as usize,
                mutable,
            }),
            old(self).becomes(*final(self), declare(old(self).state(), r@)),
    {
        let ghost before = self.state();
        let local = VarStore { ty, name, index: self.locals.len(), mutable };
        let copy = local.clone();
        self.locals.push(local);
        assert(var_views(self.locals@) =~= before.locals.push(copy@));
        self.add_to_scope(copy.clone());
        copy
    }

    /// A compiler for the body of `function`, in module `id` with the
    /// signatures `sigs`. The failures of `errors` come first.
    pub fn new(sigs: &'e Vec<Signature>, id: usize, function: &Function, errors: Vec<Error>) -> (r:
        ExprCompiler<'e>)
        ensures
            r.sigs == sigs,
            r.id == id,
            r.state() == initial(function@.params, error_views(errors@)),
    {
        let mut r = ExprCompiler {
            sigs,
            id,
            locals: Vec::new(),
            vars: Vec::new(),
            environments: Vec::new(),
            errors,
        };
        r.environments.push(scope_new());
        let ghost start = r.state();
        proof {
            assert(start.locals =~= Seq::empty());
            assert(start.vars =~= Seq::empty());
            assert(start.scopes =~= seq![Map::empty()]);
        }
        let ghost params = function@.params;
        let n = function.params.len();
        let mut i: usize = 0;
        while i < n
            invariant
                i <= n,
                n == function.params@.len(),
                params == function@.params,
                r.sigs == sigs,
                r.id == id,
                r.state() == bind_all(start, params, i as nat),
            decreases n - i,
        {
            r.add_to_scope(function.params[i].clone());
            i += 1;
        }
        r
    }

    /// The typed expression of `expr`. Failures are kept and compilation
    /// goes on: what cannot be compiled becomes `Poison`.
    #[verifier::loop_isolation(false)]
    pub fn expr(&mut self, expr: &ast::Expr) -> (r: Expr)
        ensures
            old(self).becomes(*final(self), compile(old(self).ctx(), old(self).state(), expr@).1),
            r@ == compile(old(self).ctx(), old(self).state(), expr@).0,
        decreases expr,
    {
        let ghost ctx = self.ctx();
        let ghost st = self.state();
        match &*expr.ty {
            EExpr::Literal(lit) => Expr::constant(Constant::from_literal(lit)),
            EExpr::Binary { left, op, right } => {
                let left = self.expr(left);
                let right = self.expr(right);
                let lty = left.typ();
                let rty = right.typ();
                let logic = op.kind.is_binary_logic();
                if lty != rty {
                    self.err(op.start, ErrorKind::E500 { left: lty, right: rty });
                } else if op.kind == TKind::Equal {
                    if !left.assignable() {
                        self.err(op.start, ErrorKind::E505);
                    }
                    return Expr::assign(left, right);
                } else if (logic && !lty.allow_logic()) || (!logic && !lty.allow_math()) {
                    self.err(op.start, ErrorKind::E501 { op: op.lex.clone(), ty: lty });
                }
                Expr::binary(left, op.clone(), right)
            },
            EExpr::Block(exprs) => {
                proof {
                    assert(expr@->Block_exprs =~= ast::expr_views(exprs@));
                }
                self.begin_scope();
                let exprs = self.exprs(exprs);
                self.end_scope();
                Expr::block(exprs)
            },
            EExpr::If { cond, then, els } => {
                let condition = self.expr(cond);
                if condition.typ() != Type::Bool {
                    self.err(cond.start, ErrorKind::E502);
                }
                let then = self.expr(then);
                let els = match els {
                    Some(e) => Some(self.expr(e)),
                    None => None,
                };
                Expr::if_(condition, then, els)
            },
            EExpr::While { cond, body } => {
                let condition = self.expr(cond);
                if condition.typ() != Type::Bool {
                    self.err(cond.start, ErrorKind::E502);
                }
                let body = self.expr(body);
                Expr::while_(condition, body)
            },
            EExpr::Identifier(ident) => {
                match self.find_local(&ident.lex) {
                    Some(local) => {
                        return Expr::local(local);
                    },
                    None => {},
                }
                match self.find_function(&ident.lex) {
                    Some(func) => {
                        return Expr::constant(Constant::Function(func));
                    },
                    None => {},
                }
                self.err(ident.start, ErrorKind::E503 { name: ident.lex.clone() });
                Expr::poison()
            },
            EExpr::Variable { final_, name, value } => {
                let value = self.expr(value);
                let ty = value.typ();
                if !ty.allow_assignment() {
                    self.err(name.start, ErrorKind::E504 { ty });
                }
                let local = self.add_local(name.lex.clone(), ty, !*final_);
                Expr::assign_local(&local, value)
            },
            EExpr::Unary { op, right } => {
                let right = self.expr(right);
                self.err(op.start, ErrorKind::E501 { op: op.lex.clone(), ty: right.typ() });
                Expr::poison()
            },
            EExpr::Call { callee, args } => {
                proof {
                    assert(expr@->Call_args =~= ast::expr_views(args@));
                }
                let start = callee.start;
                let callee = self.expr(callee);
                let to = match callee.typ() {
                    Type::Function(f) => if f.module == self.id && f.index < self.sigs.len() {
                        Some(f)
                    } else {
                        None
                    },
                    _ => None,
                };
                let fn_ref = match to {
                    Some(f) => f,
                    None => {
                        self.err(start, ErrorKind::E506 { ty: callee.typ() });
                        return Expr::poison();
                    },
                };
                let args = self.exprs(args);
                let sigs = self.sigs;
                let func = &sigs[fn_ref.index];
                if args.len() != func.params.len() {
                    self.err(
                        start,
                        ErrorKind::E507 { expected: func.params.len(), found: args.len() },
                    );
                }
                let n = if args.len() <= func.params.len() {
                    args.len()
                } else {
                    func.params.len()
                };
                let ghost s3 = self.state();
                let ghost irs = ir_views(args@);
                let mut i: usize = 0;
                while i < n
                    invariant
                        i <= n,
                        n <= args@.len(),
                        n <= func.params@.len(),
                        irs == ir_views(args@),
                        old(self).becomes(*self, mismatches(s3, irs, func.params@, start as nat, i as nat)),
                    decreases n - i,
                {
                    if args[i].typ() != func.params[i] {
                        self.err(
                            start,
                            ErrorKind::E508 {
                                expected: func.params[i],
                                found: args[i].typ(),
                                pos: i,
                            },
                        );
                    }
                    i += 1;
                }
                Expr::call(callee, args, func.ret)
            },
        }
    }

    /// The typed expressions of `exprs`, compiled one after the other.
    fn exprs(&mut self, exprs: &Vec<ast::Expr>) -> (r: Vec<Expr>)
        ensures
            old(self).becomes(
                *final(self),
                compile_all(
                    old(self).ctx(),
                    old(self).state(),
                    ast::expr_views(exprs@),
                    exprs@.len(),
                ).1,
            ),
            ir_views(r@) == compile_all(
                old(self).ctx(),
                old(self).state(),
                ast::expr_views(exprs@),
                exprs@.len(),
            ).0,
            r@.len() == exprs@.len(),
        decreases exprs,
    {
        let ghost ctx = self.ctx();
        let ghost st = self.state();
        let ghost es = ast::expr_views(exprs@);
        let mut out: Vec<Expr> = Vec::new();
        let mut i: usize = 0;
        proof {
            assert(ir_views(out@) =~= Seq::empty());
        }
        while i < exprs.len()
            invariant
                i <= exprs@.len(),
                out@.len() == i,
                es == ast::expr_views(exprs@),
                ctx == old(self).ctx(),
                st == old(self).state(),
                old(self).becomes(*self, compile_all(ctx, st, es, i as nat).1),
                ir_views(out@) == compile_all(ctx, st, es, i as nat).0,
            decreases exprs@.len() - i,
        {
            let ghost before = ir_views(out@);
            let ir = self.expr(&exprs[i]);
            out.push(ir);
            proof {
                assert(ir_views(out@) =~= before.push(out@.last()@));
            }
            i += 1;
        }
        out
    }

    /// The local variables that the body declared, and every failure met.
    pub fn finish(self) -> (r: (Vec<VarStore>, Vec<Error>))
        ensures
            var_views(r.0@) == self.state().locals,
            error_views(r.1@) == self.state().errors,
    {
        (self.locals, self.errors)
    }
}

/// How many of `errors` say that a name is taken.
pub open spec fn count_taken(errors: Seq<SpecError>) -> nat
    decreases errors.len(),
{
    if errors.len() == 0 {
        0
    } else {
        count_taken(errors.drop_last()) + if errors.last().kind is E201 {
            1nat
        } else {
            0nat
        }
    }
}

/// One more failure counts where it says that a name is taken.
pub proof fn lemma_count_taken_push(errors: Seq<SpecError>, e: SpecError)
    ensures
        count_taken(errors.push(e)) == count_taken(errors) + if e.kind is E201 {
            1nat
        } else {
            0nat
        },
{
    assert(errors.push(e).drop_last() =~= errors);
}

/// An operator other than `=` whose two sides failed to compile is not
/// reported again: the type of what failed passes every check.
pub proof fn lemma_poison_operands_pass(op: SpecToken, store_ok: bool)
    requires
        op.kind != TKind::Equal,
    ensures
        binary_fault(Type::Poison, Type::Poison, op, store_ok) is None,
{
}

/// A declaration whose value failed to compile is not reported again.
pub proof fn lemma_poison_can_be_stored()
    ensures
        Type::Poison.allow_assignment(),
{
}

/// A binary expression adds at most one failure to those of its two sides.
pub proof fn lemma_binary_reports_once(
    ctx: Ctx,
    st: Scoped,
    start: nat,
    left: SpecExpr,
    op: SpecToken,
    right: SpecExpr,
)
    ensures
        ({
            let s1 = compile(ctx, st, left).1;
            let s2 = compile(ctx, s1, right).1;
            let all = compile(
                ctx,
                st,
                SpecExpr::Binary { start, left: Box::new(left), op, right: Box::new(right) },
            ).1;
            ||| all == s2
            ||| exists|kind: SpecErrorKind| all == fault(s2, kind, op.start)
        }),
{
    let l = compile(ctx, st, left).0;
    let s1 = compile(ctx, st, left).1;
    let r = compile(ctx, s1, right).0;
    let s2 = compile(ctx, s1, right).1;
    let all = compile(
        ctx,
        st,
        SpecExpr::Binary { start, left: Box::new(left), op, right: Box::new(right) },
    ).1;
    match binary_fault(type_of(l), type_of(r), op, l is Variable) {
        Some(kind) => {
            assert(all == fault(s2, kind, op.start));
        },
        None => {},
    }
}

/// An `if` adds at most one failure to those of its condition and its
/// branches: that its condition is no truth value.
pub proof fn lemma_if_reports_once(
    ctx: Ctx,
    st: Scoped,
    start: nat,
    cond: SpecExpr,
    then: SpecExpr,
    els: SpecExpr,
)
    ensures
        ({
            let (c, s1) = compile(ctx, st, cond);
            let s2 = fault_if(s1, type_of(c) != Type::Bool, SpecErrorKind::E502, cond.start());
            let s3 = compile(ctx, s2, then).1;
            let s4 = compile(ctx, s3, els).1;
            compile(
                ctx,
                st,
                SpecExpr::If {
                    start,
                    cond: Box::new(cond),
                    then: Box::new(then),
                    els: Some(Box::new(els)),
                },
            ).1 == s4
        }),
{
}

/// A loop adds at most one failure to those of its condition and its body:
/// that its condition is no truth value.
pub proof fn lemma_while_reports_once(
    ctx: Ctx,
    st: Scoped,
    start: nat,
    cond: SpecExpr,
    body: SpecExpr,
)
    ensures
        ({
            let (c, s1) = compile(ctx, st, cond);
            let s2 = fault_if(s1, type_of(c) != Type::Bool, SpecErrorKind::E502, cond.start());
            compile(
                ctx,
                st,
                SpecExpr::While { start, cond: Box::new(cond), body: Box::new(body) },
            ).1 == compile(ctx, s2, body).1
        }),
{
}

/// Checking the arguments of a call never says that a name is taken.
pub proof fn lemma_mismatches_keep_taken(
    st: Scoped,
    args: Seq<SpecIr>,
    params: Seq<Type>,
    start: nat,
    n: nat,
)
    ensures
        count_taken(mismatches(st, args, params, start, n).errors) == count_taken(st.errors),
    decreases n,
{
    if !(n == 0 || n > args.len() || n > params.len()) {
        let before = mismatches(st, args, params, start, (n - 1) as nat);
        lemma_mismatches_keep_taken(st, args, params, start, (n - 1) as nat);
        lemma_count_taken_push(
            before.errors,
            SpecError {
                kind: SpecErrorKind::E508 {
                    expected: params[n - 1],
                    found: type_of(args[n - 1]),
                    pos: (n - 1) as usize,
                },
                start,
            },
        );
    }
}

/// Compiling an expression never says that a name is taken.
pub proof fn lemma_compile_keeps_taken(ctx: Ctx, st: Scoped, e: SpecExpr)
    ensures
        count_taken(compile(ctx, st, e).1.errors) == count_taken(st.errors),
    decreases e, 0nat,
{
    match e {
        SpecExpr::Literal { .. } => {},
        SpecExpr::Binary { left, op, right, .. } => {
            let (l, s1) = compile(ctx, st, *left);
            let (r, s2) = compile(ctx, s1, *right);
            lemma_compile_keeps_taken(ctx, st, *left);
            lemma_compile_keeps_taken(ctx, s1, *right);
            match binary_fault(type_of(l), type_of(r), op, l is Variable) {
                Some(kind) => {
                    lemma_count_taken_push(s2.errors, SpecError { kind, start: op.start });
                },
                None => {},
            }
        },
        SpecExpr::Block { exprs, .. } => {
            lemma_compile_all_keeps_taken(ctx, begin(st), exprs, exprs.len());
        },
        SpecExpr::If { cond, then, els, .. } => {
            let (c, s1) = compile(ctx, st, *cond);
            lemma_compile_keeps_taken(ctx, st, *cond);
            let s2 = fault_if(s1, type_of(c) != Type::Bool, SpecErrorKind::E502, cond.start());
            lemma_count_taken_push(
                s1.errors,
                SpecError { kind: SpecErrorKind::E502, start: cond.start() },
            );
            lemma_compile_keeps_taken(ctx, s2, *then);
            match els {
                Some(x) => {
                    lemma_compile_keeps_taken(ctx, compile(ctx, s2, *then).1, *x);
                },
                None => {},
            }
        },
        SpecExpr::While { cond, body, .. } => {
            let (c, s1) = compile(ctx, st, *cond);
            lemma_compile_keeps_taken(ctx, st, *cond);
            let s2 = fault_if(s1, type_of(c) != Type::Bool, SpecErrorKind::E502, cond.start());
            lemma_count_taken_push(
                s1.errors,
                SpecError { kind: SpecErrorKind::E502, start: cond.start() },
            );
            lemma_compile_keeps_taken(ctx, s2, *body);
        },
        SpecExpr::Identifier { name, .. } => {
            lemma_count_taken_push(
                st.errors,
                SpecError { kind: SpecErrorKind::E503 { name: name.lex }, start: name.start },
            );
        },
        SpecExpr::Variable { name, value, .. } => {
            let (v, s1) = compile(ctx, st, *value);
            lemma_compile_keeps_taken(ctx, st, *value);
            lemma_count_taken_push(
                s1.errors,
                SpecError { kind: SpecErrorKind::E504 { ty: type_of(v) }, start: name.start },
            );
        },
        SpecExpr::Unary { op, right, .. } => {
            let (r, s1) = compile(ctx, st, *right);
            lemma_compile_keeps_taken(ctx, st, *right);
            lemma_count_taken_push(
                s1.errors,
                SpecError {
                    kind: SpecErrorKind::E501 { op: op.lex, ty: type_of(r) },
                    start: op.start,
                },
            );
        },
        SpecExpr::Call { callee, args, .. } => {
            let start = callee.start();
            let (c, s1) = compile(ctx, st, *callee);
            lemma_compile_keeps_taken(ctx, st, *callee);
            match callee_sig(ctx, type_of(c)) {
                None => {
                    lemma_count_taken_push(
                        s1.errors,
                        SpecError { kind: SpecErrorKind::E506 { ty: type_of(c) }, start },
                    );
                },
                Some(sig) => {
                    let (irs, s2) = compile_all(ctx, s1, args, args.len());
                    lemma_compile_all_keeps_taken(ctx, s1, args, args.len());
                    let kind = SpecErrorKind::E507 {
                        expected: sig.params.len() as usize,
                        found: irs.len() as usize,
                    };
                    let s3 = fault_if(s2, irs.len() != sig.params.len(), kind, start);
                    lemma_count_taken_push(s2.errors, SpecError { kind, start });
                    lemma_mismatches_keep_taken(
                        s3,
                        irs,
                        sig.params,
                        start,
                        smaller(irs.len(), sig.params.len()),
                    );
                },
            }
        },
    }
}

/// Compiling a list of expressions never says that a name is taken.
pub proof fn lemma_compile_all_keeps_taken(ctx: Ctx, st: Scoped, es: Seq<SpecExpr>, n: nat)
    ensures
        count_taken(compile_all(ctx, st, es, n).1.errors) == count_taken(st.errors),
    decreases es, n,
{
    if !(n == 0 || n > es.len()) {
        lemma_compile_all_keeps_taken(ctx, st, es, (n - 1) as nat);
        lemma_compile_keeps_taken(ctx, compile_all(ctx, st, es, (n - 1) as nat).1, es[n - 1]);
    }
}

/// Binding a variable leaves the failures as they are.
pub proof fn lemma_bind_all_keeps_errors(st: Scoped, params: Seq<SpecVarStore>, n: nat)
    ensures
        bind_all(st, params, n).errors == st.errors,
    decreases n,
{
    if !(n == 0 || n > params.len()) {
        lemma_bind_all_keeps_errors(st, params, (n - 1) as nat);
    }
}

} // verus!
