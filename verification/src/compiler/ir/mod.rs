//! The typed intermediate representation.

pub mod tables;

use crate::compiler::ir::tables::entered;
use crate::compiler::ir::tables::held_names;
use crate::compiler::ir::tables::lemma_entry_by_keys;
use crate::compiler::ir::tables::lemma_entry_found;
use crate::compiler::ir::tables::names_insert;
use crate::compiler::ir::tables::names_new;
use crate::compiler::ir::tables::ordered_entries;
use crate::compiler::ir::tables::ordered_insert;
use crate::compiler::ir::tables::ordered_new;
use crate::compiler::ir::tables::ordered_values;
use crate::error::Error;
use crate::error::ErrorKind;
use crate::error::SpecError;
use crate::error::SpecErrorKind;
use crate::lexer::binary_logic;
use crate::lexer::SpecToken;
use crate::lexer::Token;
use crate::parser::ast;
use crate::parser::ast::SpecClass;
use crate::parser::ast::SpecFunction;
use crate::parser::ast::SpecLiteral;
use crate::parser::ast::SpecModule;
use crate::smol_str::SmolStr;
use vstd::prelude::*;

verus! {

/// A function, named by its module and its place among that module's
/// functions.
#[derive(Clone, Copy, PartialEq, Eq, Structural, Debug)]
pub struct FuncRef {
    pub module: usize,
    pub index: usize,
}

/// A class, named by its module and its place among that module's classes.
#[derive(Clone, Copy, PartialEq, Eq, Structural, Debug)]
pub struct ClassRef {
    pub module: usize,
    pub index: usize,
}

/// The type of a value.
#[derive(Clone, Copy, PartialEq, Eq, Structural, Debug)]
pub enum Type {
    Void,
    /// The type of what failed to compile. It passes every check, so that one
    /// mistake is reported once.
    Poison,
    Bool,
    I64,
    F64,
    Function(FuncRef),
    Class(ClassRef),
}

impl Type {
    pub open spec fn spec_is_int(&self) -> bool {
        *self == Type::I64 || *self == Type::Poison
    }

    pub open spec fn spec_allow_math(&self) -> bool {
        *self == Type::I64 || *self == Type::F64 || *self == Type::Poison
    }

    /// Comparisons and connectives take truth values and numbers.
    pub open spec fn spec_allow_logic(&self) -> bool {
        *self == Type::Bool || *self == Type::I64 || *self == Type::F64 || *self == Type::Poison
    }

    pub open spec fn spec_allow_assignment(&self) -> bool {
        *self != Type::Void
    }

    #[verifier::when_used_as_spec(spec_is_int)]
    pub fn is_int(&self) -> (r: bool)
        ensures
            r == self.spec_is_int(),
    {
        *self == Type::I64 || *self == Type::Poison
    }

    #[verifier::when_used_as_spec(spec_allow_math)]
    pub fn allow_math(&self) -> (r: bool)
        ensures
            r == self.spec_allow_math(),
    {
        *self == Type::I64 || *self == Type::F64 || *self == Type::Poison
    }

    #[verifier::when_used_as_spec(spec_allow_logic)]
    pub fn allow_logic(&self) -> (r: bool)
        ensures
            r == self.spec_allow_logic(),
    {
        *self == Type::Bool || *self == Type::I64 || *self == Type::F64 || *self == Type::Poison
    }

    #[verifier::when_used_as_spec(spec_allow_assignment)]
    pub fn allow_assignment(&self) -> (r: bool)
        ensures
            r == self.spec_allow_assignment(),
    {
        *self != Type::Void
    }

    /// The function that a function type names.
    pub fn into_fn(self) -> (r: FuncRef)
        requires
            self is Function,
        ensures
            self == Type::Function(r),
    {
        match self {
            Type::Function(r) => r,
            _ => FuncRef { module: 0, index: 0 },
        }
    }
}

/// A variable as specifications see it.
pub struct SpecVarStore {
    pub ty: Type,
    pub name: Seq<u8>,
    pub index: usize,
    pub mutable: bool,
}

/// A place that holds a value: a parameter, a local variable or a member of
/// a class.
pub struct VarStore {
    pub ty: Type,
    pub name: SmolStr,
    pub index: usize,
    pub mutable: bool,
}

impl View for VarStore {
    type V = SpecVarStore;

    open spec fn view(&self) -> SpecVarStore {
        SpecVarStore { ty: self.ty, name: self.name@, index: self.index, mutable: self.mutable }
    }
}

impl Clone for VarStore {
    fn clone(&self) -> (r: VarStore)
        ensures
            r@ == self@,
    {
        VarStore { ty: self.ty, name: self.name.clone(), index: self.index, mutable: self.mutable }
    }
}

/// The views of the variables of `vars`, in order.
pub open spec fn var_views(vars: Seq<VarStore>) -> Seq<SpecVarStore> {
    Seq::new(vars.len(), |i: int| vars[i]@)
}

/// A constant as specifications see it.
pub enum SpecConstant {
    Bool(bool),
    Int(i64),
    Float(Seq<u8>),
    String(Seq<u8>),
    Function(FuncRef),
    Class(ClassRef),
}

/// A constant. A float keeps the text it was written as.
pub enum Constant {
    Bool(bool),
    Int(i64),
    Float(SmolStr),
    String(SmolStr),
    Function(FuncRef),
    Class(ClassRef),
}

impl View for Constant {
    type V = SpecConstant;

    open spec fn view(&self) -> SpecConstant {
        match *self {
            Constant::Bool(b) => SpecConstant::Bool(b),
            Constant::Int(i) => SpecConstant::Int(i),
            Constant::Float(text) => SpecConstant::Float(text@),
            Constant::String(text) => SpecConstant::String(text@),
            Constant::Function(f) => SpecConstant::Function(f),
            Constant::Class(c) => SpecConstant::Class(c),
        }
    }
}

/// The constant that the literal `lit` stands for.
pub open spec fn constant_of(lit: SpecLiteral) -> SpecConstant {
    match lit {
        SpecLiteral::Bool(b) => SpecConstant::Bool(b),
        SpecLiteral::Int(i) => SpecConstant::Int(i),
        SpecLiteral::Float(text) => SpecConstant::Float(text),
        SpecLiteral::String(text) => SpecConstant::String(text),
    }
}

/// The type of a constant. Text has no type of its own and counts as `Void`.
pub open spec fn constant_type(c: SpecConstant) -> Type {
    match c {
        SpecConstant::Bool(_) => Type::Bool,
        SpecConstant::Int(_) => Type::I64,
        SpecConstant::Float(_) => Type::F64,
        SpecConstant::String(_) => Type::Void,
        SpecConstant::Function(f) => Type::Function(f),
        SpecConstant::Class(c) => Type::Class(c),
    }
}

impl Constant {
    pub fn from_literal(lit: &ast::Literal) -> (r: Constant)
        ensures
            r@ == constant_of(lit@),
    {
        match lit {
            ast::Literal::Bool(b) => Constant::Bool(*b),
            ast::Literal::Int(i) => Constant::Int(*i),
            ast::Literal::Float(text) => Constant::Float(text.clone()),
            ast::Literal::String(text) => Constant::String(text.clone()),
        }
    }

    /// The type of the constant.
    pub fn typ(&self) -> (r: Type)
        ensures
            r == constant_type(self@),
    {
        match self {
            Constant::Bool(_) => Type::Bool,
            Constant::Int(_) => Type::I64,
            Constant::Float(_) => Type::F64,
            Constant::String(_) => Type::Void,
            Constant::Function(f) => Type::Function(*f),
            Constant::Class(c) => Type::Class(*c),
        }
    }
}

/// A typed expression as specifications see it.
pub enum SpecIr {
    Poison,
    Binary { left: Box<SpecIr>, op: SpecToken, right: Box<SpecIr> },
    Constant(SpecConstant),
    Block(Seq<SpecIr>),
    If { cond: Box<SpecIr>, then: Box<SpecIr>, els: Box<SpecIr>, phi: bool },
    While { cond: Box<SpecIr>, body: Box<SpecIr> },
    Variable { index: usize, typ: Type },
    Assign { store: Box<SpecIr>, value: Box<SpecIr> },
    Call { callee: Box<SpecIr>, args: Seq<SpecIr>, ret: Type },
}

/// The type of a typed expression.
pub open spec fn type_of(e: SpecIr) -> Type
    decreases e,
{
    match e {
        SpecIr::Poison => Type::Poison,
        SpecIr::Binary { left, op, .. } => if binary_logic(op.kind) {
            Type::Bool
        } else {
            type_of(*left)
        },
        SpecIr::Constant(c) => constant_type(c),
        SpecIr::Block(exprs) => if exprs.len() == 0 {
            Type::Void
        } else {
            type_of(exprs.last())
        },
        SpecIr::If { then, phi, .. } => if phi {
            type_of(*then)
        } else {
            Type::Void
        },
        SpecIr::While { .. } => Type::Void,
        SpecIr::Variable { typ, .. } => typ,
        SpecIr::Assign { value, .. } => type_of(*value),
        SpecIr::Call { ret, .. } => ret,
    }
}

/// A typed expression. Its type is worked out once, when it is made.
pub struct Expr {
    inner: Box<IExpr>,
    ty: Type,
}

/// The forms of a typed expression.
pub enum IExpr {
    Poison,
    Binary { left: Expr, op: Token, right: Expr },
    Constant(Constant),
    Block(Vec<Expr>),
    If { cond: Expr, then: Expr, els: Expr, phi: bool },
    While { cond: Expr, body: Expr },
    Variable { index: usize, typ: Type },
    Assign { store: Expr, value: Expr },
    Call { callee: Expr, args: Vec<Expr> },
}

/// What an expression of the form `inner` is to specifications; `ret` is
/// the type that a call returns.
pub open spec fn node_view(inner: IExpr, ret: Type) -> SpecIr
    decreases inner, 0nat,
{
    match inner {
        IExpr::Poison => SpecIr::Poison,
        IExpr::Binary { left, op, right } => SpecIr::Binary {
            left: Box::new(left.view()),
            op: op@,
            right: Box::new(right.view()),
        },
        IExpr::Constant(c) => SpecIr::Constant(c@),
        IExpr::Block(exprs) => SpecIr::Block(
            Seq::new(
                exprs@.len(),
                |i: int|
                    if 0 <= i < exprs@.len() {
                        exprs@[i].view()
                    } else {
                        arbitrary()
                    },
            ),
        ),
        IExpr::If { cond, then, els, phi } => SpecIr::If {
            cond: Box::new(cond.view()),
            then: Box::new(then.view()),
            els: Box::new(els.view()),
            phi,
        },
        IExpr::While { cond, body } => SpecIr::While {
            cond: Box::new(cond.view()),
            body: Box::new(body.view()),
        },
        IExpr::Variable { index, typ } => SpecIr::Variable { index, typ },
        IExpr::Assign { store, value } => SpecIr::Assign {
            store: Box::new(store.view()),
            value: Box::new(value.view()),
        },
        IExpr::Call { callee, args } => SpecIr::Call {
            callee: Box::new(callee.view()),
            args: Seq::new(
                args@.len(),
                |i: int|
                    if 0 <= i < args@.len() {
                        args@[i].view()
                    } else {
                        arbitrary()
                    },
            ),
            ret,
        },
    }
}

impl View for Expr {
    type V = SpecIr;

    closed spec fn view(&self) -> SpecIr
        decreases *self, 1nat,
    {
        node_view(*self.inner, self.ty)
    }
}

/// The views of the expressions of `exprs`, in order.
pub open spec fn ir_views(exprs: Seq<Expr>) -> Seq<SpecIr> {
    Seq::new(exprs.len(), |i: int| if 0 <= i < exprs.len() { exprs[i]@ } else { arbitrary() })
}

/// The typed `if`: it yields a value (`phi`) where both branches are there
/// and agree on a type that is not `Void`. A missing `else` is filled with
/// the constant zero.
pub open spec fn if_node(cond: SpecIr, then: SpecIr, els: Option<SpecIr>) -> SpecIr {
    SpecIr::If {
        cond: Box::new(cond),
        then: Box::new(then),
        els: Box::new(
            match els {
                Some(e) => e,
                None => SpecIr::Constant(SpecConstant::Int(0)),
            },
        ),
        phi: els is Some && type_of(then) == type_of(els->0) && type_of(then) != Type::Void,
    }
}

impl Expr {
    #[verifier::type_invariant]
    spec fn inv(self) -> bool {
        self.ty == type_of(self@)
    }

    fn get_type(inner: &IExpr) -> (r: Type)
        requires
            !(inner is Call),
        ensures
            r == type_of(node_view(*inner, Type::Void)),
    {
        match inner {
            IExpr::Poison => Type::Poison,
            IExpr::Binary { left, op, .. } => if op.kind.is_binary_logic() {
                Type::Bool
            } else {
                left.typ()
            },
            IExpr::Constant(c) => c.typ(),
            IExpr::Block(exprs) => {
                let n = exprs.len();
                if n == 0 {
                    Type::Void
                } else {
                    exprs[n - 1].typ()
                }
            },
            IExpr::If { then, phi, .. } => if *phi {
                then.typ()
            } else {
                Type::Void
            },
            IExpr::While { .. } => Type::Void,
            IExpr::Variable { typ, .. } => *typ,
            IExpr::Assign { value, .. } => value.typ(),
            IExpr::Call { .. } => Type::Poison,
        }
    }

    fn new(inner: IExpr) -> (r: Expr)
        requires
            !(inner is Call),
        ensures
            r@ == node_view(inner, Type::Void),
    {
        let ty = Expr::get_type(&inner);
        assert(node_view(inner, ty) == node_view(inner, Type::Void));
        Expr { inner: Box::new(inner), ty }
    }

    fn with_typ(inner: IExpr, typ: Type) -> (r: Expr)
        requires
            typ == type_of(node_view(inner, typ)),
        ensures
            r@ == node_view(inner, typ),
    {
        Expr { inner: Box::new(inner), ty: typ }
    }

    /// The form of the expression.
    pub fn inner(&self) -> (r: &IExpr)
        ensures
            self@ == node_view(*r, type_of(self@)),
            decreases_to!(*self => *r),
    {
        proof {
            use_type_invariant(self);
        }
        &*self.inner
    }

    /// The type of the expression.
    pub fn typ(&self) -> (r: Type)
        ensures
            r == type_of(self@),
    {
        proof {
            use_type_invariant(self);
        }
        self.ty
    }

    /// Whether the expression can stand left of `=`.
    pub fn assignable(&self) -> (r: bool)
        ensures
            r == (self@ is Variable),
    {
        match &*self.inner {
            IExpr::Variable { .. } => true,
            _ => false,
        }
    }

    pub fn zero() -> (r: Expr)
        ensures
            r@ == SpecIr::Constant(SpecConstant::Int(0)),
    {
        Expr::new(IExpr::Constant(Constant::Int(0)))
    }

    pub fn poison() -> (r: Expr)
        ensures
            r@ == SpecIr::Poison,
    {
        Expr::new(IExpr::Poison)
    }

    pub fn binary(left: Expr, op: Token, right: Expr) -> (r: Expr)
        ensures
            r@ == (SpecIr::Binary { left: Box::new(left@), op: op@, right: Box::new(right@) }),
    {
        Expr::new(IExpr::Binary { left, op, right })
    }

    pub fn constant(lit: Constant) -> (r: Expr)
        ensures
            r@ == SpecIr::Constant(lit@),
    {
        Expr::new(IExpr::Constant(lit))
    }

    pub fn block(exprs: Vec<Expr>) -> (r: Expr)
        ensures
            r@ == SpecIr::Block(ir_views(exprs@)),
    {
        let r = Expr::new(IExpr::Block(exprs));
        assert(r@->Block_0 =~= ir_views(exprs@));
        r
    }

    pub fn if_(cond: Expr, then: Expr, els: Option<Expr>) -> (r: Expr)
        ensures
            r@ == if_node(
                cond@,
                then@,
                match els {
                    Some(e) => Some(e@),
                    None => None,
                },
            ),
    {
        let phi = match &els {
            Some(e) => then.typ() == e.typ() && then.typ() != Type::Void,
            None => false,
        };
        let els = match els {
            Some(e) => e,
            None => Expr::zero(),
        };
        Expr::new(IExpr::If { phi, cond, then, els })
    }

    pub fn while_(cond: Expr, body: Expr) -> (r: Expr)
        ensures
            r@ == (SpecIr::While { cond: Box::new(cond@), body: Box::new(body@) }),
    {
        Expr::new(IExpr::While { cond, body })
    }

    pub fn local(variable: &VarStore) -> (r: Expr)
        ensures
            r@ == (SpecIr::Variable { index: variable.index, typ: variable.ty }),
    {
        Expr::new(IExpr::Variable { index: variable.index, typ: variable.ty })
    }

    pub fn assign(store: Expr, value: Expr) -> (r: Expr)
        ensures
            r@ == (SpecIr::Assign { store: Box::new(store@), value: Box::new(value@) }),
    {
        Expr::new(IExpr::Assign { store, value })
    }

    pub fn assign_local(variable: &VarStore, value: Expr) -> (r: Expr)
        ensures
            r@ == (SpecIr::Assign {
                store: Box::new(SpecIr::Variable { index: variable.index, typ: variable.ty }),
                value: Box::new(value@),
            }),
    {
        Expr::assign(Expr::local(variable), value)
    }

    pub fn call(callee: Expr, args: Vec<Expr>, ret_type: Type) -> (r: Expr)
        ensures
            r@ == (SpecIr::Call { callee: Box::new(callee@), args: ir_views(args@), ret: ret_type }),
    {
        let r = Expr::with_typ(IExpr::Call { callee, args }, ret_type);
        assert(r@->Call_args =~= ir_views(args@));
        r
    }
}

/// Asking an expression for its type twice gives the same type: the type
/// is a function of the expression alone.
pub proof fn lemma_type_is_stable(e: Expr, first: Type, second: Type)
    requires
        first == type_of(e@),
        second == type_of(e@),
    ensures
        first == second,
{
}

/// A compiled function as specifications see it.
pub struct SpecIrFunction {
    pub name: Seq<u8>,
    pub params: Seq<SpecVarStore>,
    pub ret_type: Type,
    pub locals: Seq<SpecVarStore>,
    pub body: SpecIr,
    pub ast: SpecFunction,
}

/// A function: its parameters, the type it returns, the local variables
/// that its body declares, the body, and the syntax tree it was made from.
/// The body is `Poison` until it is compiled.
pub struct Function {
    pub name: SmolStr,
    pub params: Vec<VarStore>,
    pub ret_type: Type,
    pub locals: Vec<VarStore>,
    pub body: Expr,
    pub ast: ast::Function,
}

impl View for Function {
    type V = SpecIrFunction;

    open spec fn view(&self) -> SpecIrFunction {
        SpecIrFunction {
            name: self.name@,
            params: var_views(self.params@),
            ret_type: self.ret_type,
            locals: var_views(self.locals@),
            body: self.body@,
            ast: self.ast@,
        }
    }
}

/// The views of the functions of `funcs`, in order.
pub open spec fn func_views(funcs: Seq<Function>) -> Seq<SpecIrFunction> {
    Seq::new(funcs.len(), |i: int| funcs[i]@)
}

impl Function {
    /// Adds a local variable and hands back a copy of it. Its index is its
    /// place among the local variables.
    pub fn add_local(&mut self, name: SmolStr, ty: Type, mutable: bool) -> (r: VarStore)
        ensures
            r@ == (SpecVarStore { ty, name: name@, index: old(self).locals@.len() as usize, mutable }),
            final(self)@ == (SpecIrFunction { locals: old(self)@.locals.push(r@), ..old(self)@ }),
    {
        let local = VarStore { ty, name, index: self.locals.len(), mutable };
        let copy = local.clone();
        let ghost before = var_views(self.locals@);
        self.locals.push(local);
        assert(var_views(self.locals@) =~= before.push(copy@));
        copy
    }
}

impl FuncRef {
    /// The function that this names in `module`.
    pub fn resolve<'m>(&self, module: &'m Module) -> (r: &'m Function)
        requires
            self.index < module.funcs@.len(),
        ensures
            *r == module.funcs@[self.index as int],
    {
        &module.funcs[self.index]
    }

    /// The name of the function that was added last to the module `id`.
    pub fn new_last(id: usize, module: &Module) -> (r: FuncRef)
        requires
            module.funcs@.len() > 0,
        ensures
            r == (FuncRef { module: id, index: (module.funcs@.len() - 1) as usize }),
    {
        FuncRef { module: id, index: module.funcs.len() - 1 }
    }
}

impl ClassRef {
    /// The class that this names in `module`.
    pub fn resolve<'m>(&self, module: &'m Module) -> (r: &'m Class)
        requires
            self.index < module.classes@.len(),
        ensures
            *r == module.classes@[self.index as int],
    {
        &module.classes[self.index]
    }
}

/// What a class holds under one name, as specifications see it.
pub enum SpecClassContent {
    Member(SpecVarStore),
    Method(FuncRef),
    Function(FuncRef),
}

/// What a class holds under one name.
pub enum ClassContent {
    Member(VarStore),
    Method(FuncRef),
    Function(FuncRef),
}

impl View for ClassContent {
    type V = SpecClassContent;

    open spec fn view(&self) -> SpecClassContent {
        match *self {
            ClassContent::Member(m) => SpecClassContent::Member(m@),
            ClassContent::Method(f) => SpecClassContent::Method(f),
            ClassContent::Function(f) => SpecClassContent::Function(f),
        }
    }
}

impl Clone for ClassContent {
    fn clone(&self) -> (r: ClassContent)
        ensures
            r@ == self@,
    {
        match self {
            ClassContent::Member(m) => ClassContent::Member(m.clone()),
            ClassContent::Method(f) => ClassContent::Method(*f),
            ClassContent::Function(f) => ClassContent::Function(*f),
        }
    }
}

/// What a class holds, by name and in the order in which the names came in:
/// that order is the layout of the class. The names and their order are kept
/// by an ordered map, which gives each name its place among `items`.
pub struct ClassTable {
    map: indexmap::IndexMap<Vec<u8>, usize>,
    items: Vec<ClassContent>,
}

impl View for ClassTable {
    type V = Seq<(Seq<u8>, SpecClassContent)>;

    closed spec fn view(&self) -> Seq<(Seq<u8>, SpecClassContent)> {
        let entries = ordered_entries(self.map);
        Seq::new(entries.len(), |i: int| (entries[i].0, self.items@[entries[i].1 as int]@))
    }
}

impl ClassTable {
    /// Every name has its place among the items.
    pub closed spec fn wf(&self) -> bool {
        forall|i: int|
            0 <= i < ordered_entries(self.map).len() ==> (#[trigger] ordered_entries(
                self.map,
            )[i]).1 < self.items@.len()
    }

    pub fn new() -> (r: ClassTable)
        ensures
            r.wf(),
            r@.len() == 0,
    {
        ClassTable { map: ordered_new(), items: Vec::new() }
    }

    /// Puts `item` under `name`. Where the name is taken, the item takes the
    /// place of the one that was there; else it becomes the last.
    pub fn insert(&mut self, name: &SmolStr, item: ClassContent)
        requires
            old(self).wf(),
        ensures
            final(self).wf(),
            final(self)@ == entered(old(self)@, name@, item@),
    {
        let ghost entries = ordered_entries(self.map);
        let ghost before = self@;
        let slot = self.items.len();
        self.items.push(item);
        ordered_insert(&mut self.map, name.as_bytes(), slot);
        proof {
            lemma_entry_found(entries, name@);
            lemma_entry_by_keys(entries, before, name@);
            assert(self@ =~= entered(before, name@, item@));
        }
    }

    /// What the class holds, in order.
    pub fn values(&self) -> (r: Vec<ClassContent>)
        requires
            self.wf(),
        ensures
            r@.len() == self@.len(),
            forall|i: int| 0 <= i < r@.len() ==> (#[trigger] r@[i])@ == self@[i].1,
    {
        let slots = ordered_values(&self.map);
        let mut out: Vec<ClassContent> = Vec::new();
        let mut i: usize = 0;
        while i < slots.len()
            invariant
                i <= slots@.len(),
                self.wf(),
                slots@.len() == ordered_entries(self.map).len(),
                forall|j: int|
                    0 <= j < slots@.len() ==> slots@[j] == (#[trigger] ordered_entries(
                        self.map,
                    )[j]).1,
                out@.len() == i,
                forall|j: int| 0 <= j < i ==> (#[trigger] out@[j])@ == self@[j].1,
            decreases slots@.len() - i,
        {
            assert(ordered_entries(self.map)[i as int].1 < self.items@.len());
            out.push(self.items[slots[i]].clone());
            i += 1;
        }
        out
    }
}

/// A compiled class as specifications see it.
pub struct SpecIrClass {
    pub name: Seq<u8>,
    pub content: Seq<(Seq<u8>, SpecClassContent)>,
    pub ast: SpecClass,
}

/// A class: what it holds under which name, and the syntax tree it was made
/// from.
pub struct Class {
    pub name: SmolStr,
    pub content: ClassTable,
    pub ast: ast::Class,
}

impl View for Class {
    type V = SpecIrClass;

    open spec fn view(&self) -> SpecIrClass {
        SpecIrClass { name: self.name@, content: self.content@, ast: self.ast@ }
    }
}

/// The views of the classes of `classes`, in order.
pub open spec fn class_ir_views(classes: Seq<Class>) -> Seq<SpecIrClass> {
    Seq::new(classes.len(), |i: int| classes[i]@)
}

/// A compiled module as specifications see it.
pub struct SpecIrModule {
    pub funcs: Seq<SpecIrFunction>,
    pub classes: Seq<SpecIrClass>,
    pub reserved_names: Set<Seq<u8>>,
    pub ast: SpecModule,
}

/// A module: its functions, its classes, the names that are taken in it, and
/// what is left of the syntax tree it was made from.
pub struct Module {
    pub funcs: Vec<Function>,
    pub classes: Vec<Class>,
    pub reserved_names: hashbrown::HashSet<Vec<u8>>,
    pub ast: ast::Module,
}

impl View for Module {
    type V = SpecIrModule;

    open spec fn view(&self) -> SpecIrModule {
        SpecIrModule {
            funcs: func_views(self.funcs@),
            classes: class_ir_views(self.classes@),
            reserved_names: held_names(self.reserved_names),
            ast: self.ast@,
        }
    }
}

impl Module {
    /// Every class of the module is in order.
    pub open spec fn wf(&self) -> bool {
        forall|i: int| 0 <= i < self.classes@.len() ==> (#[trigger] self.classes@[i]).content.wf()
    }

    /// Takes `name` for a declaration at `pos`, or says that it is taken.
    pub fn try_reserve_name(&mut self, name: &SmolStr, pos: usize) -> (r: Result<(), Error>)
        ensures
            final(self)@ == (SpecIrModule {
                reserved_names: old(self)@.reserved_names.insert(name@),
                ..old(self)@
            }),
            final(self).funcs == old(self).funcs,
            final(self).classes == old(self).classes,
            final(self).ast == old(self).ast,
            match r {
                Ok(_) => !old(self)@.reserved_names.contains(name@),
                Err(e) => old(self)@.reserved_names.contains(name@) && e@ == (SpecError {
                    kind: SpecErrorKind::E201(name@),
                    start: pos as nat,
                }),
            },
    {
        if !names_insert(&mut self.reserved_names, name.as_bytes()) {
            Err(Error::new(pos, ErrorKind::E201(name.clone())))
        } else {
            Ok(())
        }
    }

    /// The module of the syntax tree `ast`, with nothing declared yet.
    pub fn from_ast(ast: ast::Module) -> (r: Module)
        ensures
            r.wf(),
            r@ == (SpecIrModule {
                funcs: Seq::empty(),
                classes: Seq::empty(),
                reserved_names: Set::empty(),
                ast: ast@,
            }),
    {
        let r = Module {
            funcs: Vec::new(),
            classes: Vec::new(),
            reserved_names: names_new(),
            ast,
        };
        assert(r@.funcs =~= Seq::empty());
        assert(r@.classes =~= Seq::empty());
        r
    }
}

} // verus!
