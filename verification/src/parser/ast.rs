//! Syntax trees.

use crate::lexer::SpecToken;
use crate::lexer::Token;
use crate::smol_str::SmolStr;
use vstd::prelude::*;

verus! {

/// A literal as specifications see it.
pub enum SpecLiteral {
    Bool(bool),
    Int(i64),
    Float(Seq<u8>),
    String(Seq<u8>),
}

/// A literal. A float keeps the text it was written as.
pub enum Literal {
    Bool(bool),
    Int(i64),
    Float(SmolStr),
    String(SmolStr),
}

impl View for Literal {
    type V = SpecLiteral;

    open spec fn view(&self) -> SpecLiteral {
        match *self {
            Literal::Bool(b) => SpecLiteral::Bool(b),
            Literal::Int(i) => SpecLiteral::Int(i),
            Literal::Float(text) => SpecLiteral::Float(text@),
            Literal::String(text) => SpecLiteral::String(text@),
        }
    }
}

impl Clone for Literal {
    fn clone(&self) -> (r: Literal)
        ensures
            r@ == self@,
    {
        match self {
            Literal::Bool(b) => Literal::Bool(*b),
            Literal::Int(i) => Literal::Int(*i),
            Literal::Float(text) => Literal::Float(text.clone()),
            Literal::String(text) => Literal::String(text.clone()),
        }
    }
}

/// An expression as specifications see it; `start` is the offset in the
/// source at which the expression begins.
#[allow(inconsistent_fields)]
pub enum SpecExpr {
    Literal { start: nat, value: SpecLiteral },
    Identifier { start: nat, name: SpecToken },
    Variable { start: nat, final_: bool, name: SpecToken, value: Box<SpecExpr> },
    Block { start: nat, exprs: Seq<SpecExpr> },
    If { start: nat, cond: Box<SpecExpr>, then: Box<SpecExpr>, els: Option<Box<SpecExpr>> },
    While { start: nat, cond: Box<SpecExpr>, body: Box<SpecExpr> },
    Binary { start: nat, left: Box<SpecExpr>, op: SpecToken, right: Box<SpecExpr> },
    Unary { start: nat, op: SpecToken, right: Box<SpecExpr> },
    Call { start: nat, callee: Box<SpecExpr>, args: Seq<SpecExpr> },
}

impl SpecExpr {
    /// The offset in the source at which the expression begins.
    pub open spec fn start(self) -> nat {
        match self {
            SpecExpr::Literal { start, .. } => start,
            SpecExpr::Identifier { start, .. } => start,
            SpecExpr::Variable { start, .. } => start,
            SpecExpr::Block { start, .. } => start,
            SpecExpr::If { start, .. } => start,
            SpecExpr::While { start, .. } => start,
            SpecExpr::Binary { start, .. } => start,
            SpecExpr::Unary { start, .. } => start,
            SpecExpr::Call { start, .. } => start,
        }
    }
}

/// An expression, with the offset in the source at which it begins.
pub struct Expr {
    pub ty: Box<EExpr>,
    pub start: usize,
}

/// The forms of an expression.
pub enum EExpr {
    Literal(Literal),
    Identifier(Token),
    Variable { final_: bool, name: Token, value: Expr },
    Block(Vec<Expr>),
    If { cond: Expr, then: Expr, els: Option<Expr> },
    While { cond: Expr, body: Expr },
    Binary { left: Expr, op: Token, right: Expr },
    Unary { op: Token, right: Expr },
    Call { callee: Expr, args: Vec<Expr> },
}

/// What the expression `e` is to specifications.
pub open spec fn expr_view(e: Expr) -> SpecExpr
    decreases e,
{
    let start = e.start as nat;
    match *e.ty {
        EExpr::Literal(value) => SpecExpr::Literal { start, value: value@ },
        EExpr::Identifier(name) => SpecExpr::Identifier { start, name: name@ },
        EExpr::Variable { final_, name, value } => SpecExpr::Variable {
            start,
            final_,
            name: name@,
            value: Box::new(expr_view(value)),
        },
        EExpr::Block(exprs) => SpecExpr::Block {
            start,
            exprs: Seq::new(
                exprs@.len(),
                |i: int|
                    if 0 <= i < exprs@.len() {
                        expr_view(exprs@[i])
                    } else {
                        arbitrary()
                    },
            ),
        },
        EExpr::If { cond, then, els } => SpecExpr::If {
            start,
            cond: Box::new(expr_view(cond)),
            then: Box::new(expr_view(then)),
            els: match els {
                Some(x) => Some(Box::new(expr_view(x))),
                None => None,
            },
        },
        EExpr::While { cond, body } => SpecExpr::While {
            start,
            cond: Box::new(expr_view(cond)),
            body: Box::new(expr_view(body)),
        },
        EExpr::Binary { left, op, right } => SpecExpr::Binary {
            start,
            left: Box::new(expr_view(left)),
            op: op@,
            right: Box::new(expr_view(right)),
        },
        EExpr::Unary { op, right } => SpecExpr::Unary {
            start,
            op: op@,
            right: Box::new(expr_view(right)),
        },
        EExpr::Call { callee, args } => SpecExpr::Call {
            start,
            callee: Box::new(expr_view(callee)),
            args: Seq::new(
                args@.len(),
                |i: int|
                    if 0 <= i < args@.len() {
                        expr_view(args@[i])
                    } else {
                        arbitrary()
                    },
            ),
        },
    }
}

impl View for Expr {
    type V = SpecExpr;

    open spec fn view(&self) -> SpecExpr {
        expr_view(*self)
    }
}

/// The views of the expressions of `exprs`, in order.
pub open spec fn expr_views(exprs: Seq<Expr>) -> Seq<SpecExpr> {
    Seq::new(exprs.len(), |i: int| if 0 <= i < exprs.len() { exprs[i]@ } else { arbitrary() })
}

/// A type as it is written: a name.
pub struct Type {
    pub name: Token,
}

impl View for Type {
    type V = SpecToken;

    open spec fn view(&self) -> SpecToken {
        self.name@
    }
}

/// A parameter as specifications see it.
pub struct SpecParameter {
    pub name: Seq<u8>,
    pub ty: SpecToken,
}

/// A parameter of a function.
pub struct Parameter {
    pub name: SmolStr,
    pub ty: Type,
}

impl View for Parameter {
    type V = SpecParameter;

    open spec fn view(&self) -> SpecParameter {
        SpecParameter { name: self.name@, ty: self.ty@ }
    }
}

/// The views of the parameters of `params`, in order.
pub open spec fn param_views(params: Seq<Parameter>) -> Seq<SpecParameter> {
    Seq::new(params.len(), |i: int| params[i]@)
}

/// A member as specifications see it.
pub struct SpecMember {
    pub name: SpecToken,
    pub ty: SpecToken,
    pub mutable: bool,
}

/// A member of a class.
pub struct Member {
    pub name: Token,
    pub ty: Type,
    pub mutable: bool,
}

impl View for Member {
    type V = SpecMember;

    open spec fn view(&self) -> SpecMember {
        SpecMember { name: self.name@, ty: self.ty@, mutable: self.mutable }
    }
}

/// The views of the members of `members`, in order.
pub open spec fn member_views(members: Seq<Member>) -> Seq<SpecMember> {
    Seq::new(members.len(), |i: int| members[i]@)
}

/// A function as specifications see it.
pub struct SpecFunction {
    pub name: SpecToken,
    pub params: Seq<SpecParameter>,
    pub ret_type: Option<SpecToken>,
    pub body: Option<SpecExpr>,
}

/// A function. One that is provided from outside has no body.
pub struct Function {
    pub name: Token,
    pub params: Vec<Parameter>,
    pub ret_type: Option<Type>,
    pub body: Option<Expr>,
}

impl View for Function {
    type V = SpecFunction;

    open spec fn view(&self) -> SpecFunction {
        SpecFunction {
            name: self.name@,
            params: param_views(self.params@),
            ret_type: match self.ret_type {
                Some(t) => Some(t@),
                None => None,
            },
            body: match self.body {
                Some(e) => Some(e@),
                None => None,
            },
        }
    }
}

/// The views of the functions of `functions`, in order.
pub open spec fn function_views(functions: Seq<Function>) -> Seq<SpecFunction> {
    Seq::new(functions.len(), |i: int| functions[i]@)
}

/// A class as specifications see it.
pub struct SpecClass {
    pub name: SpecToken,
    pub members: Seq<SpecMember>,
    pub methods: Seq<SpecFunction>,
    pub functions: Seq<SpecFunction>,
}

/// A class: its members, its methods and its static functions.
pub struct Class {
    pub name: Token,
    pub members: Vec<Member>,
    pub methods: Vec<Function>,
    pub functions: Vec<Function>,
}

impl View for Class {
    type V = SpecClass;

    open spec fn view(&self) -> SpecClass {
        SpecClass {
            name: self.name@,
            members: member_views(self.members@),
            methods: function_views(self.methods@),
            functions: function_views(self.functions@),
        }
    }
}

/// The views of the classes of `classes`, in order.
pub open spec fn class_views(classes: Seq<Class>) -> Seq<SpecClass> {
    Seq::new(classes.len(), |i: int| classes[i]@)
}

/// The bytes of the names of `names`, in order.
pub open spec fn name_views(names: Seq<SmolStr>) -> Seq<Seq<u8>> {
    Seq::new(names.len(), |i: int| names[i]@)
}

/// A module as specifications see it.
pub struct SpecModule {
    pub functions: Seq<SpecFunction>,
    pub classes: Seq<SpecClass>,
    pub path: Seq<Seq<u8>>,
}

/// A module: the declarations of one source file, and the path of that file.
pub struct Module {
    pub functions: Vec<Function>,
    pub classes: Vec<Class>,
    pub path: Vec<SmolStr>,
}

impl View for Module {
    type V = SpecModule;

    open spec fn view(&self) -> SpecModule {
        SpecModule {
            functions: function_views(self.functions@),
            classes: class_views(self.classes@),
            path: name_views(self.path@),
        }
    }
}

/// The offsets at which `e` and the expressions inside it begin: each
/// expression before those inside it, and those side by side from left to
/// right.
pub open spec fn starts(e: SpecExpr) -> Seq<nat>
    decreases e, 0nat,
{
    match e {
        SpecExpr::Literal { start, .. } => seq![start],
        SpecExpr::Identifier { start, .. } => seq![start],
        SpecExpr::Variable { start, value, .. } => seq![start] + starts(*value),
        SpecExpr::Block { start, exprs } => seq![start] + starts_all(exprs, exprs.len()),
        SpecExpr::If { start, cond, then, els } => seq![start] + starts(*cond) + starts(*then)
            + match els {
            Some(x) => starts(*x),
            None => Seq::empty(),
        },
        SpecExpr::While { start, cond, body } => seq![start] + starts(*cond) + starts(*body),
        SpecExpr::Binary { start, left, right, .. } => seq![start] + starts(*left) + starts(*right),
        SpecExpr::Unary { start, right, .. } => seq![start] + starts(*right),
        SpecExpr::Call { start, callee, args } => seq![start] + starts(*callee) + starts_all(
            args,
            args.len(),
        ),
    }
}

/// The offsets of the first `n` of `es`, one expression after the other.
pub open spec fn starts_all(es: Seq<SpecExpr>, n: nat) -> Seq<nat>
    decreases es, n,
{
    if n == 0 || n > es.len() {
        Seq::empty()
    } else {
        starts_all(es, (n - 1) as nat) + starts(es[n - 1])
    }
}

/// Whether no number of `s` is smaller than one before it.
pub open spec fn ascending(s: Seq<nat>) -> bool {
    forall|i: int, j: int| 0 <= i <= j < s.len() ==> s[i] <= s[j]
}

} // verus!
