//! The parser: tokens to syntax trees, by recursive descent with operator
//! precedence.
//!
//! The grammar is written down twice. The `spec` functions of this file say
//! what each rule yields on a sequence of tokens and how many tokens it
//! uses; the methods of `Parser` do the work and are proved to agree with
//! them.

pub mod ast;
pub mod order;

use crate::error::error_views;
use crate::error::Error;
use crate::error::ErrorKind;
use crate::error::SpecError;
use crate::error::SpecErrorKind;
use crate::lexer::infix_power;
use crate::lexer::is_digit;
use crate::lexer::prefix_power;
use crate::lexer::token_views;
use crate::lexer::tokenize;
use crate::lexer::tokens_of;
use crate::lexer::SpecToken;
use crate::lexer::TKind;
use crate::lexer::Token;
use crate::parser::ast::class_views;
use crate::parser::ast::expr_views;
use crate::parser::ast::function_views;
use crate::parser::ast::member_views;
use crate::parser::ast::name_views;
use crate::parser::ast::param_views;
use crate::parser::ast::Class;
use crate::parser::ast::EExpr;
use crate::parser::ast::Expr;
use crate::parser::ast::Function;
use crate::parser::ast::Literal;
use crate::parser::ast::Member;
use crate::parser::ast::Module;
use crate::parser::ast::Parameter;
use crate::parser::ast::SpecClass;
use crate::parser::ast::SpecExpr;
use crate::parser::ast::SpecFunction;
use crate::parser::ast::SpecLiteral;
use crate::parser::ast::SpecMember;
use crate::parser::ast::SpecModule;
use crate::parser::ast::SpecParameter;
use crate::parser::ast::Type;
use crate::smol_str::SmolStr;
use vstd::prelude::*;
use vstd::string::StringSliceAdditionalSpecFns;

verus! {

/// What a rule of the grammar yields, and how many tokens it used up.
pub struct Step<T> {
    pub out: Result<T, SpecError>,
    pub used: nat,
}

/// `step`, with `n` more tokens used before it.
pub open spec fn after<T>(n: nat, step: Step<T>) -> Step<T> {
    Step { out: step.out, used: n + step.used }
}

/// The token at `pos`. Behind the last token the closing token repeats.
pub open spec fn tok_at(toks: Seq<SpecToken>, pos: int) -> SpecToken {
    if 0 <= pos < toks.len() {
        toks[pos]
    } else {
        SpecToken {
            kind: TKind::Error,
            lex: seq![0u8],
            start: if toks.len() > 0 {
                toks.last().start
            } else {
                0
            },
        }
    }
}

pub open spec fn kind_at(toks: Seq<SpecToken>, pos: int) -> TKind {
    tok_at(toks, pos).kind
}

/// How many tokens are taken when the token at `pos` is.
pub open spec fn adv(toks: Seq<SpecToken>, pos: int) -> nat {
    if 0 <= pos < toks.len() {
        1
    } else {
        0
    }
}

/// How many tokens stand at `pos` and behind it.
pub open spec fn remaining(toks: Seq<SpecToken>, pos: int) -> nat {
    if pos <= toks.len() {
        (toks.len() - pos) as nat
    } else {
        0
    }
}

/// The failure of kind `kind` at the token at `pos`, after `used` tokens.
pub open spec fn fail<T>(toks: Seq<SpecToken>, pos: int, kind: SpecErrorKind, used: nat) -> Step<
    T,
> {
    Step { out: Err(SpecError { kind, start: tok_at(toks, pos).start }), used }
}

/// The failure `e`, after `used` tokens.
pub open spec fn failed<T>(e: SpecError, used: nat) -> Step<T> {
    Step { out: Err(e), used }
}

pub open spec fn done<T>(value: T, used: nat) -> Step<T> {
    Step { out: Ok(value), used }
}

/// Takes the token at `pos` where it is of kind `kind`.
pub open spec fn expect(toks: Seq<SpecToken>, pos: int, kind: TKind) -> Step<SpecToken> {
    if kind_at(toks, pos) == kind {
        done(tok_at(toks, pos), adv(toks, pos))
    } else {
        fail(toks, pos, SpecErrorKind::E100 { expected: kind, found: kind_at(toks, pos) }, 0)
    }
}

/// The number that the decimal digits of `s` write.
pub open spec fn digits_value(s: Seq<u8>) -> nat
    decreases s.len(),
{
    if s.len() == 0 {
        0
    } else {
        digits_value(s.drop_last()) * 10 + (s.last() - ('0' as u8)) as nat
    }
}

pub open spec fn all_digits(s: Seq<u8>) -> bool {
    forall|i: int| 0 <= i < s.len() ==> is_digit(#[trigger] s[i])
}

/// The value of an integer literal: that of its digits, where it has no
/// width suffix and fits sixty-four bits with a sign.
pub open spec fn int_value(lex: Seq<u8>) -> Option<i64> {
    if lex.len() >= 1 && all_digits(lex) && digits_value(lex) <= i64::MAX {
        Some(digits_value(lex) as i64)
    } else {
        None
    }
}

/// `Member := Ident ':' Type`, behind `val` or `var`.
pub open spec fn member(toks: Seq<SpecToken>, pos: int, mutable: bool) -> Step<SpecMember> {
    let name = expect(toks, pos, TKind::Identifier);
    let colon = expect(toks, pos + name.used, TKind::Colon);
    let ty = expect(toks, pos + name.used + colon.used, TKind::Identifier);
    if name.out is Err {
        failed(name.out->Err_0, name.used)
    } else if colon.out is Err {
        failed(colon.out->Err_0, name.used + colon.used)
    } else if ty.out is Err {
        failed(ty.out->Err_0, name.used + colon.used + ty.used)
    } else {
        done(
            SpecMember { name: name.out->Ok_0, ty: ty.out->Ok_0, mutable },
            name.used + colon.used + ty.used,
        )
    }
}

/// `Params := (Ident ':' Type) (',' Ident ':' Type)*`, added to `acc`.
pub open spec fn params(toks: Seq<SpecToken>, pos: int, acc: Seq<SpecParameter>) -> Step<
    Seq<SpecParameter>,
>
    decreases remaining(toks, pos),
{
    let name = expect(toks, pos, TKind::Identifier);
    let colon = expect(toks, pos + name.used, TKind::Colon);
    let ty = expect(toks, pos + name.used + colon.used, TKind::Identifier);
    let used = name.used + colon.used + ty.used;
    if name.out is Err {
        failed(name.out->Err_0, name.used)
    } else if colon.out is Err {
        failed(colon.out->Err_0, name.used + colon.used)
    } else if ty.out is Err {
        failed(ty.out->Err_0, used)
    } else {
        let all = acc.push(SpecParameter { name: (name.out->Ok_0).lex, ty: ty.out->Ok_0 });
        if kind_at(toks, pos + used) == TKind::Comma {
            after(used + 1, params(toks, pos + used + 1, all))
        } else {
            done(all, used)
        }
    }
}

/// `Function := Ident '(' Params? ')' ('->' Type)? Expr?`, behind `fun`. A
/// function that is provided from outside (`is_ext`) has no body.
pub open spec fn function(toks: Seq<SpecToken>, pos: int, is_ext: bool) -> Step<SpecFunction> {
    let name = expect(toks, pos, TKind::Identifier);
    let p1 = pos + name.used;
    let open = expect(toks, p1, TKind::LeftParen);
    let p2 = p1 + open.used;
    let ps = if kind_at(toks, p2) != TKind::RightParen {
        params(toks, p2, Seq::empty())
    } else {
        done(Seq::empty(), 0)
    };
    let p3 = p2 + ps.used;
    let close = expect(toks, p3, TKind::RightParen);
    let p4 = p3 + close.used;
    let arrow = kind_at(toks, p4) == TKind::Arrow;
    let ret = if arrow {
        after(adv(toks, p4), expect(toks, p4 + adv(toks, p4), TKind::Identifier))
    } else {
        done(tok_at(toks, p4), 0)
    };
    let p5 = p4 + ret.used;
    let body = if is_ext {
        done(SpecExpr::Block { start: 0, exprs: Seq::empty() }, 0)
    } else {
        expression(toks, p5)
    };
    let p6 = p5 + body.used;
    if name.out is Err {
        failed(name.out->Err_0, (p1 - pos) as nat)
    } else if open.out is Err {
        failed(open.out->Err_0, (p2 - pos) as nat)
    } else if ps.out is Err {
        failed(ps.out->Err_0, (p3 - pos) as nat)
    } else if close.out is Err {
        failed(close.out->Err_0, (p4 - pos) as nat)
    } else if ret.out is Err {
        failed(ret.out->Err_0, (p5 - pos) as nat)
    } else if body.out is Err {
        failed(body.out->Err_0, (p6 - pos) as nat)
    } else {
        done(
            SpecFunction {
                name: name.out->Ok_0,
                params: ps.out->Ok_0,
                ret_type: if arrow {
                    Some(ret.out->Ok_0)
                } else {
                    None
                },
                body: if is_ext {
                    None
                } else {
                    Some(body.out->Ok_0)
                },
            },
            (p6 - pos) as nat,
        )
    }
}

/// The declarations between the braces of a class, added to `acc`.
pub open spec fn class_body(toks: Seq<SpecToken>, pos: int, acc: SpecClass) -> Step<SpecClass>
    decreases remaining(toks, pos),
{
    let kind = kind_at(toks, pos);
    let p1 = pos + adv(toks, pos);
    if kind == TKind::RightBrace {
        done(acc, 0)
    } else if kind == TKind::Val || kind == TKind::Var {
        let m = member(toks, p1, kind == TKind::Var);
        match m.out {
            Err(e) => failed(e, 1 + m.used),
            Ok(v) => after(
                1 + m.used,
                class_body(toks, p1 + m.used, SpecClass { members: acc.members.push(v), ..acc }),
            ),
        }
    } else if kind == TKind::Fun {
        let f = function(toks, p1, false);
        match f.out {
            Err(e) => failed(e, 1 + f.used),
            Ok(v) => after(
                1 + f.used,
                class_body(toks, p1 + f.used, SpecClass { methods: acc.methods.push(v), ..acc }),
            ),
        }
    } else if kind == TKind::Static && kind_at(toks, p1) == TKind::Fun {
        let f = function(toks, p1 + 1, false);
        match f.out {
            Err(e) => failed(e, 2 + f.used),
            Ok(v) => after(
                2 + f.used,
                class_body(
                    toks,
                    p1 + 1 + f.used,
                    SpecClass { functions: acc.functions.push(v), ..acc },
                ),
            ),
        }
    } else {
        fail(toks, p1, SpecErrorKind::E102, adv(toks, pos))
    }
}

/// `Class := Ident '{' (Val|Var|Fun|'static' Fun)* '}'`, behind `class`.
pub open spec fn class(toks: Seq<SpecToken>, pos: int) -> Step<SpecClass> {
    let name = expect(toks, pos, TKind::Identifier);
    let p1 = pos + name.used;
    let open = expect(toks, p1, TKind::LeftBrace);
    let p2 = p1 + open.used;
    let body = class_body(
        toks,
        p2,
        SpecClass {
            name: name.out->Ok_0,
            members: Seq::empty(),
            methods: Seq::empty(),
            functions: Seq::empty(),
        },
    );
    let p3 = p2 + body.used;
    let close = expect(toks, p3, TKind::RightBrace);
    let p4 = p3 + close.used;
    if name.out is Err {
        failed(name.out->Err_0, (p1 - pos) as nat)
    } else if open.out is Err {
        failed(open.out->Err_0, (p2 - pos) as nat)
    } else if body.out is Err {
        failed(body.out->Err_0, (p3 - pos) as nat)
    } else if close.out is Err {
        failed(close.out->Err_0, (p4 - pos) as nat)
    } else {
        done(body.out->Ok_0, (p4 - pos) as nat)
    }
}

/// `HigherExpr := VarDecl | Expr`.
pub open spec fn higher_expr(toks: Seq<SpecToken>, pos: int) -> Step<SpecExpr>
    decreases remaining(toks, pos), 12nat,
{
    if kind_at(toks, pos) == TKind::Var || kind_at(toks, pos) == TKind::Val {
        var_decl(toks, pos)
    } else {
        expression(toks, pos)
    }
}

/// `VarDecl := ('var'|'val') Ident '=' Expr`.
pub open spec fn var_decl(toks: Seq<SpecToken>, pos: int) -> Step<SpecExpr>
    decreases remaining(toks, pos), 11nat,
{
    let final_ = kind_at(toks, pos) == TKind::Val;
    let p1 = pos + adv(toks, pos);
    let name = expect(toks, p1, TKind::Identifier);
    let p2 = p1 + name.used;
    let eq = expect(toks, p2, TKind::Equal);
    let p3 = p2 + eq.used;
    if name.out is Err {
        failed(name.out->Err_0, (p2 - pos) as nat)
    } else if eq.out is Err {
        failed(eq.out->Err_0, (p3 - pos) as nat)
    } else if adv(toks, pos) == 0 {
        fail(toks, pos, SpecErrorKind::E101, 0)
    } else {
        let value = expression(toks, p3);
        match value.out {
            Err(e) => failed(e, (p3 - pos) as nat + value.used),
            Ok(v) => done(
                SpecExpr::Variable {
                    start: (name.out->Ok_0).start,
                    final_,
                    name: name.out->Ok_0,
                    value: Box::new(v),
                },
                (p3 - pos) as nat + value.used,
            ),
        }
    }
}

/// `Expr := Block | If | While | Binary`.
pub open spec fn expression(toks: Seq<SpecToken>, pos: int) -> Step<SpecExpr>
    decreases remaining(toks, pos), 10nat,
{
    match kind_at(toks, pos) {
        TKind::LeftBrace => block(toks, pos),
        TKind::If => if_expr(toks, pos),
        TKind::While => while_stmt(toks, pos),
        _ => binary(toks, pos, 0),
    }
}

/// The expressions of a block up to its closing brace, added to `acc`.
pub open spec fn block_items(toks: Seq<SpecToken>, pos: int, acc: Seq<SpecExpr>) -> Step<
    Seq<SpecExpr>,
>
    decreases remaining(toks, pos), 13nat,
{
    if kind_at(toks, pos) == TKind::Error || kind_at(toks, pos) == TKind::RightBrace {
        done(acc, 0)
    } else {
        let e = higher_expr(toks, pos);
        match e.out {
            Err(err) => failed(err, e.used),
            Ok(v) => if e.used == 0 {
                fail(toks, pos, SpecErrorKind::E101, 0)
            } else {
                after(e.used, block_items(toks, pos + e.used, acc.push(v)))
            },
        }
    }
}

/// `Block := '{' HigherExpr* '}'`.
pub open spec fn block(toks: Seq<SpecToken>, pos: int) -> Step<SpecExpr>
    decreases remaining(toks, pos), 9nat,
{
    if kind_at(toks, pos) != TKind::LeftBrace {
        fail(toks, pos, SpecErrorKind::E101, 0)
    } else {
        let items = block_items(toks, pos + 1, Seq::empty());
        let close = expect(toks, pos + 1 + items.used, TKind::RightBrace);
        match items.out {
            Err(e) => failed(e, 1 + items.used),
            Ok(exprs) => match close.out {
                Err(e) => failed(e, 1 + items.used + close.used),
                Ok(_) => done(
                    SpecExpr::Block { start: tok_at(toks, pos).start, exprs },
                    1 + items.used + close.used,
                ),
            },
        }
    }
}

/// `If := 'if' '(' Expr ')' Expr ('else' Expr)?`.
pub open spec fn if_expr(toks: Seq<SpecToken>, pos: int) -> Step<SpecExpr>
    decreases remaining(toks, pos), 9nat,
{
    if kind_at(toks, pos) != TKind::If {
        fail(toks, pos, SpecErrorKind::E101, 0)
    } else {
        let open = expect(toks, pos + 1, TKind::LeftParen);
        let p2 = pos + 1 + open.used;
        match open.out {
            Err(e) => failed(e, (p2 - pos) as nat),
            Ok(_) => {
                let cond = expression(toks, p2);
                let p3 = p2 + cond.used;
                let close = expect(toks, p3, TKind::RightParen);
                let p4 = p3 + close.used;
                match cond.out {
                    Err(e) => failed(e, (p3 - pos) as nat),
                    Ok(c) => match close.out {
                        Err(e) => failed(e, (p4 - pos) as nat),
                        Ok(_) => {
                            let then = expression(toks, p4);
                            let p5 = p4 + then.used;
                            match then.out {
                                Err(e) => failed(e, (p5 - pos) as nat),
                                Ok(t) => if kind_at(toks, p5) == TKind::Else {
                                    let els = expression(toks, p5 + 1);
                                    match els.out {
                                        Err(e) => failed(e, (p5 + 1 - pos) as nat + els.used),
                                        Ok(x) => done(
                                            SpecExpr::If {
                                                start: tok_at(toks, pos).start,
                                                cond: Box::new(c),
                                                then: Box::new(t),
                                                els: Some(Box::new(x)),
                                            },
                                            (p5 + 1 - pos) as nat + els.used,
                                        ),
                                    }
                                } else {
                                    done(
                                        SpecExpr::If {
                                            start: tok_at(toks, pos).start,
                                            cond: Box::new(c),
                                            then: Box::new(t),
                                            els: None,
                                        },
                                        (p5 - pos) as nat,
                                    )
                                },
                            }
                        },
                    },
                }
            },
        }
    }
}

/// `While := 'while' '(' Expr ')' Expr`.
pub open spec fn while_stmt(toks: Seq<SpecToken>, pos: int) -> Step<SpecExpr>
    decreases remaining(toks, pos), 9nat,
{
    if kind_at(toks, pos) != TKind::While {
        fail(toks, pos, SpecErrorKind::E101, 0)
    } else {
        let open = expect(toks, pos + 1, TKind::LeftParen);
        let p2 = pos + 1 + open.used;
        match open.out {
            Err(e) => failed(e, (p2 - pos) as nat),
            Ok(_) => {
                let cond = expression(toks, p2);
                let p3 = p2 + cond.used;
                let close = expect(toks, p3, TKind::RightParen);
                let p4 = p3 + close.used;
                match cond.out {
                    Err(e) => failed(e, (p3 - pos) as nat),
                    Ok(c) => match close.out {
                        Err(e) => failed(e, (p4 - pos) as nat),
                        Ok(_) => {
                            let body = expression(toks, p4);
                            match body.out {
                                Err(e) => failed(e, (p4 - pos) as nat + body.used),
                                Ok(b) => done(
                                    SpecExpr::While {
                                        start: tok_at(toks, pos).start,
                                        cond: Box::new(c),
                                        body: Box::new(b),
                                    },
                                    (p4 - pos) as nat + body.used,
                                ),
                            }
                        },
                    },
                }
            },
        }
    }
}

/// `Binary := Unary (op Binary)*`: the operand at `pos`, then every operator
/// that binds at least as tightly as `min_bp`, each with what stands right of
/// it.
pub open spec fn binary(toks: Seq<SpecToken>, pos: int, min_bp: u8) -> Step<SpecExpr>
    decreases remaining(toks, pos), 8nat,
{
    let first = unary(toks, pos);
    match first.out {
        Err(e) => failed(e, first.used),
        Ok(left) => after(first.used, binary_rest(toks, pos + first.used, left, min_bp)),
    }
}

/// The operators that follow the operand `left`, which ends before `pos`.
pub open spec fn binary_rest(toks: Seq<SpecToken>, pos: int, left: SpecExpr, min_bp: u8) -> Step<
    SpecExpr,
>
    decreases remaining(toks, pos), 2nat,
{
    match infix_power(kind_at(toks, pos)) {
        None => done(left, 0),
        Some((lbp, rbp)) => if lbp < min_bp {
            done(left, 0)
        } else {
            let right = binary(toks, pos + 1, rbp);
            match right.out {
                Err(e) => failed(e, 1 + right.used),
                Ok(r) => after(
                    1 + right.used,
                    binary_rest(
                        toks,
                        pos + 1 + right.used,
                        SpecExpr::Binary {
                            start: left.start(),
                            left: Box::new(left),
                            op: tok_at(toks, pos),
                            right: Box::new(r),
                        },
                        min_bp,
                    ),
                ),
            }
        },
    }
}

/// `Unary := ('-'|'!') Unary | Call`.
pub open spec fn unary(toks: Seq<SpecToken>, pos: int) -> Step<SpecExpr>
    decreases remaining(toks, pos), 7nat,
{
    match prefix_power(kind_at(toks, pos)) {
        Some(rbp) => {
            let right = binary(toks, pos + 1, rbp);
            match right.out {
                Err(e) => failed(e, 1 + right.used),
                Ok(r) => done(
                    SpecExpr::Unary {
                        start: tok_at(toks, pos).start,
                        op: tok_at(toks, pos),
                        right: Box::new(r),
                    },
                    1 + right.used,
                ),
            }
        },
        None => call(toks, pos),
    }
}

/// `Call := Primary ('(' (Expr (',' Expr)*)? ')')*`.
pub open spec fn call(toks: Seq<SpecToken>, pos: int) -> Step<SpecExpr>
    decreases remaining(toks, pos), 6nat,
{
    let first = primary(toks, pos);
    match first.out {
        Err(e) => failed(e, first.used),
        Ok(callee) => after(first.used, call_rest(toks, pos + first.used, callee)),
    }
}

/// The argument lists that follow `callee`, which ends before `pos`.
pub open spec fn call_rest(toks: Seq<SpecToken>, pos: int, callee: SpecExpr) -> Step<SpecExpr>
    decreases remaining(toks, pos), 1nat,
{
    if kind_at(toks, pos) != TKind::LeftParen {
        done(callee, 0)
    } else {
        let list = if kind_at(toks, pos + 1) != TKind::RightParen {
            args(toks, pos + 1, Seq::empty())
        } else {
            done(Seq::empty(), 0)
        };
        let p2 = pos + 1 + list.used;
        let close = expect(toks, p2, TKind::RightParen);
        match list.out {
            Err(e) => failed(e, (p2 - pos) as nat),
            Ok(a) => match close.out {
                Err(e) => failed(e, (p2 - pos) as nat + close.used),
                Ok(_) => after(
                    (p2 - pos) as nat + close.used,
                    call_rest(
                        toks,
                        p2 + close.used,
                        SpecExpr::Call { start: callee.start(), callee: Box::new(callee), args: a },
                    ),
                ),
            },
        }
    }
}

/// `Expr (',' Expr)*`, added to `acc`.
pub open spec fn args(toks: Seq<SpecToken>, pos: int, acc: Seq<SpecExpr>) -> Step<Seq<SpecExpr>>
    decreases remaining(toks, pos), 13nat,
{
    let e = expression(toks, pos);
    match e.out {
        Err(err) => failed(err, e.used),
        Ok(v) => if kind_at(toks, pos + e.used) == TKind::Comma {
            after(e.used + 1, args(toks, pos + e.used + 1, acc.push(v)))
        } else {
            done(acc.push(v), e.used)
        },
    }
}

/// `Primary := Literal | Ident | '(' Expr ')'`.
pub open spec fn primary(toks: Seq<SpecToken>, pos: int) -> Step<SpecExpr>
    decreases remaining(toks, pos), 5nat,
{
    let tok = tok_at(toks, pos);
    let start = tok.start;
    match tok.kind {
        TKind::False => done(SpecExpr::Literal { start, value: SpecLiteral::Bool(false) }, 1),
        TKind::True => done(SpecExpr::Literal { start, value: SpecLiteral::Bool(true) }, 1),
        TKind::String => done(SpecExpr::Literal { start, value: SpecLiteral::String(tok.lex) }, 1),
        TKind::Int => match int_value(tok.lex) {
            Some(i) => done(SpecExpr::Literal { start, value: SpecLiteral::Int(i) }, 1),
            None => fail(toks, pos, SpecErrorKind::E101, 0),
        },
        TKind::Float => done(SpecExpr::Literal { start, value: SpecLiteral::Float(tok.lex) }, 1),
        TKind::Identifier => done(SpecExpr::Identifier { start, name: tok }, 1),
        TKind::LeftParen => {
            let inner = expression(toks, pos + 1);
            let close = expect(toks, pos + 1 + inner.used, TKind::RightParen);
            match inner.out {
                Err(e) => failed(e, 1 + inner.used),
                Ok(v) => match close.out {
                    Err(e) => failed(e, 1 + inner.used + close.used),
                    Ok(_) => done(v, 1 + inner.used + close.used),
                },
            }
        },
        _ => fail(toks, pos, SpecErrorKind::E101, 0),
    }
}

/// How many tokens are passed over after a failure: all up to the next
/// `fun` or `class`, or to the end.
pub open spec fn sync(toks: Seq<SpecToken>, pos: int) -> nat
    decreases remaining(toks, pos),
{
    let kind = kind_at(toks, pos);
    if kind == TKind::Error || kind == TKind::Fun || kind == TKind::Class {
        0
    } else {
        1 + sync(toks, pos + 1)
    }
}

/// What has been read of a module: its declarations and the failures.
pub struct Items {
    pub functions: Seq<SpecFunction>,
    pub classes: Seq<SpecClass>,
    pub errors: Seq<SpecError>,
}

/// `Module := (Class | Fun | 'extern' Fun)*`: the declarations from `pos`
/// on, added to `acc`. After a failure reading goes on behind the tokens that
/// `sync` passes over.
pub open spec fn items(toks: Seq<SpecToken>, pos: int, acc: Items) -> Items
    decreases remaining(toks, pos),
{
    let kind = kind_at(toks, pos);
    let p1 = pos + 1;
    if kind == TKind::Error {
        acc
    } else if kind == TKind::Class {
        let c = class(toks, p1);
        let p2 = p1 + c.used;
        match c.out {
            Ok(v) => items(toks, p2, Items { classes: acc.classes.push(v), ..acc }),
            Err(e) => items(toks, p2 + sync(toks, p2), Items { errors: acc.errors.push(e), ..acc }),
        }
    } else if kind == TKind::Fun || (kind == TKind::Extern && kind_at(toks, p1) == TKind::Fun) {
        let is_ext = kind == TKind::Extern;
        let from = if is_ext {
            p1 + 1
        } else {
            p1
        };
        let f = function(toks, from, is_ext);
        let p2 = from + f.used;
        match f.out {
            Ok(v) => items(toks, p2, Items { functions: acc.functions.push(v), ..acc }),
            Err(e) => items(toks, p2 + sync(toks, p2), Items { errors: acc.errors.push(e), ..acc }),
        }
    } else {
        let e = SpecError { kind: SpecErrorKind::E102, start: tok_at(toks, p1).start };
        items(toks, p1 + sync(toks, p1), Items { errors: acc.errors.push(e), ..acc })
    }
}

/// The module that `toks` spell, or every failure met while reading them.
pub open spec fn parse_tokens(toks: Seq<SpecToken>, path: Seq<Seq<u8>>) -> Result<
    SpecModule,
    Seq<SpecError>,
> {
    let all = items(
        toks,
        0,
        Items { functions: Seq::empty(), classes: Seq::empty(), errors: Seq::empty() },
    );
    if all.errors.len() == 0 {
        Ok(SpecModule { functions: all.functions, classes: all.classes, path })
    } else {
        Err(all.errors)
    }
}

/// The module that the source text `src` spells, or every failure met while
/// reading it.
pub open spec fn parse_source(src: Seq<u8>, path: Seq<Seq<u8>>) -> Result<
    SpecModule,
    Seq<SpecError>,
> {
    parse_tokens(tokens_of(src), path)
}

/// What `r` is to specifications.
pub open spec fn res_view<T: View>(r: Result<T, Error>) -> Result<T::V, SpecError> {
    match r {
        Ok(v) => Ok(v@),
        Err(e) => Err(e@),
    }
}

/// What the outcome of reading a module is to specifications.
pub open spec fn module_res_view(r: Result<Module, Vec<Error>>) -> Result<
    SpecModule,
    Seq<SpecError>,
> {
    match r {
        Ok(m) => Ok(m@),
        Err(errors) => Err(error_views(errors@)),
    }
}

/// The module that `all` amounts to, or its failures.
pub open spec fn finish(all: Items, path: Seq<Seq<u8>>) -> Result<SpecModule, Seq<SpecError>> {
    if all.errors.len() == 0 {
        Ok(SpecModule { functions: all.functions, classes: all.classes, path })
    } else {
        Err(all.errors)
    }
}

/// `digits_value` grows with every digit that is added.
proof fn lemma_digits_prefix(s: Seq<u8>, i: int)
    requires
        0 <= i <= s.len(),
    ensures
        digits_value(s.subrange(0, i)) <= digits_value(s),
    decreases s.len() - i,
{
    if i < s.len() {
        lemma_digits_prefix(s, i + 1);
        assert(s.subrange(0, i + 1).drop_last() =~= s.subrange(0, i));
    } else {
        assert(s.subrange(0, i) =~= s);
    }
}

fn int_of(lex: &SmolStr) -> (r: Option<i64>)
    ensures
        r == int_value(lex@),
{
    let n = lex.len();
    if n == 0 {
        return None;
    }
    let mut acc: i64 = 0;
    let mut i: usize = 0;
    while i < n
        invariant
            i <= n,
            n == lex@.len(),
            forall|j: int| 0 <= j < i ==> is_digit(#[trigger] lex@[j]),
            0 <= acc,
            acc == digits_value(lex@.subrange(0, i as int)),
        decreases n - i,
    {
        let b = lex.byte_at(i);
        if b < '0' as u8 || b > '9' as u8 {
            assert(!is_digit(lex@[i as int]));
            return None;
        }
        let d: i64 = (b - '0' as u8) as i64;
        proof {
            assert(lex@.subrange(0, i + 1).drop_last() =~= lex@.subrange(0, i as int));
            lemma_digits_prefix(lex@, i + 1);
        }
        if acc > (i64::MAX - d) / 10 {
            return None;
        }
        acc = acc * 10 + d;
        i += 1;
    }
    assert(lex@.subrange(0, n as int) =~= lex@);
    Some(acc)
}

/// A parser over the tokens of one source text.
pub struct Parser {
    tokens: Vec<Token>,
    pos: usize,
}

impl Parser {
    #[verifier::type_invariant]
    spec fn inv(self) -> bool {
        self.pos <= self.tokens@.len()
    }

    /// The tokens that the parser reads.
    pub closed spec fn stream(&self) -> Seq<SpecToken> {
        token_views(self.tokens@)
    }

    /// How many tokens have been taken.
    pub closed spec fn at(&self) -> int {
        self.pos as int
    }

    /// Whether `next` is this parser after `used` more tokens and nothing
    /// else.
    pub open spec fn moved(&self, next: Parser, used: nat) -> bool {
        &&& next.stream() == self.stream()
        &&& next.at() == self.at() + used
    }

    /// What `parse` returns from here.
    pub open spec fn outcome(&self, path: Seq<Seq<u8>>) -> Result<SpecModule, Seq<SpecError>> {
        finish(
            items(
                self.stream(),
                self.at(),
                Items { functions: Seq::empty(), classes: Seq::empty(), errors: Seq::empty() },
            ),
            path,
        )
    }

    /// A parser at the first token of `src`.
    pub fn new(src: &str) -> (r: Parser)
        ensures
            r.stream() == tokens_of(src.spec_bytes()),
            r.at() == 0,
            forall|path: Seq<Seq<u8>>| #[trigger]
                r.outcome(path) == parse_source(src.spec_bytes(), path),
    {
        Parser { tokens: tokenize(src), pos: 0 }
    }

    fn kind(&self) -> (k: TKind)
        ensures
            k == kind_at(self.stream(), self.at()),
    {
        if self.pos < self.tokens.len() {
            self.tokens[self.pos].kind
        } else {
            TKind::Error
        }
    }

    fn start(&self) -> (s: usize)
        ensures
            s == tok_at(self.stream(), self.at()).start,
    {
        let n = self.tokens.len();
        if self.pos < n {
            self.tokens[self.pos].start
        } else if n > 0 {
            self.tokens[n - 1].start
        } else {
            0
        }
    }

    fn advance(&mut self) -> (t: Token)
        ensures
            t@ == tok_at(old(self).stream(), old(self).at()),
            old(self).moved(*final(self), adv(old(self).stream(), old(self).at())),
    {
        proof {
            use_type_invariant(&*self);
        }
        let n = self.tokens.len();
        if self.pos < n {
            let t = self.tokens[self.pos].clone();
            self.pos = self.pos + 1;
            t
        } else {
            let nul = [0u8];
            let lex = SmolStr::from_bytes(nul.as_slice());
            proof {
                assert(lex@ =~= seq![0u8]);
            }
            Token { kind: TKind::Error, lex, start: self.start() }
        }
    }

    fn check(&self, kind: TKind) -> (r: bool)
        ensures
            r == (kind_at(self.stream(), self.at()) == kind),
    {
        self.kind() == kind
    }

    fn matches(&mut self, kind: TKind) -> (r: bool)
        ensures
            r == (kind_at(old(self).stream(), old(self).at()) == kind),
            old(self).moved(
                *final(self),
                if r {
                    adv(old(self).stream(), old(self).at())
                } else {
                    0
                },
            ),
    {
        if self.check(kind) {
            let _ = self.advance();
            true
        } else {
            false
        }
    }

    fn consume(&mut self, kind: TKind) -> (r: Result<Token, Error>)
        ensures
            res_view(r) == expect(old(self).stream(), old(self).at(), kind).out,
            old(self).moved(*final(self), expect(old(self).stream(), old(self).at(), kind).used),
    {
        if self.check(kind) {
            Ok(self.advance())
        } else {
            Err(Error::new(self.start(), ErrorKind::E100 { expected: kind, found: self.kind() }))
        }
    }

    fn typ(&mut self) -> (r: Result<Type, Error>)
        ensures
            res_view(r) == expect(old(self).stream(), old(self).at(), TKind::Identifier).out,
            old(self).moved(
                *final(self),
                expect(old(self).stream(), old(self).at(), TKind::Identifier).used,
            ),
    {
        match self.consume(TKind::Identifier) {
            Ok(name) => Ok(Type { name }),
            Err(e) => Err(e),
        }
    }

    fn member(&mut self, mutable: bool) -> (r: Result<Member, Error>)
        ensures
            res_view(r) == member(old(self).stream(), old(self).at(), mutable).out,
            old(self).moved(*final(self), member(old(self).stream(), old(self).at(), mutable).used),
    {
        let name = match self.consume(TKind::Identifier) {
            Ok(t) => t,
            Err(e) => return Err(e),
        };
        match self.consume(TKind::Colon) {
            Ok(_) => {},
            Err(e) => return Err(e),
        }
        let ty = match self.typ() {
            Ok(t) => t,
            Err(e) => return Err(e),
        };
        Ok(Member { name, ty, mutable })
    }

    fn params(&mut self) -> (r: Result<Vec<Parameter>, Error>)
        ensures
            ({
                let s = params(old(self).stream(), old(self).at(), Seq::empty());
                &&& old(self).moved(*final(self), s.used)
                &&& match r {
                    Ok(v) => s.out == Ok::<Seq<SpecParameter>, SpecError>(param_views(v@)),
                    Err(e) => s.out == Err::<Seq<SpecParameter>, SpecError>(e@),
                }
            }),
    {
        let ghost toks = self.stream();
        let ghost p0 = self.at();
        let mut out: Vec<Parameter> = Vec::new();
        assert(param_views(out@) =~= Seq::empty());
        loop
            invariant
                self.stream() == toks,
                toks == old(self).stream(),
                p0 == old(self).at(),
                p0 <= self.at(),
                after((self.at() - p0) as nat, params(toks, self.at(), param_views(out@)))
                    == params(toks, p0, Seq::empty()),
            decreases remaining(toks, self.at()),
        {
            proof {
                use_type_invariant(&*self);
            }
            let ghost before = param_views(out@);
            let name = match self.consume(TKind::Identifier) {
                Ok(t) => t,
                Err(e) => return Err(e),
            };
            match self.consume(TKind::Colon) {
                Ok(_) => {},
                Err(e) => return Err(e),
            }
            let ty = match self.typ() {
                Ok(t) => t,
                Err(e) => return Err(e),
            };
            out.push(Parameter { name: name.lex, ty });
            proof {
                assert(param_views(out@) =~= before.push(out@.last()@));
            }
            if !self.matches(TKind::Comma) {
                return Ok(out);
            }
        }
    }

    fn function(&mut self, is_ext: bool) -> (r: Result<Function, Error>)
        ensures
            res_view(r) == function(old(self).stream(), old(self).at(), is_ext).out,
            old(self).moved(*final(self), function(old(self).stream(), old(self).at(), is_ext).used),
    {
        let name = match self.consume(TKind::Identifier) {
            Ok(t) => t,
            Err(e) => return Err(e),
        };
        match self.consume(TKind::LeftParen) {
            Ok(_) => {},
            Err(e) => return Err(e),
        }
        let mut params: Vec<Parameter> = Vec::new();
        assert(param_views(params@) =~= Seq::empty());
        if !self.check(TKind::RightParen) {
            params = match self.params() {
                Ok(p) => p,
                Err(e) => return Err(e),
            };
        }
        match self.consume(TKind::RightParen) {
            Ok(_) => {},
            Err(e) => return Err(e),
        }
        let ret_type = if self.matches(TKind::Arrow) {
            match self.typ() {
                Ok(t) => Some(t),
                Err(e) => return Err(e),
            }
        } else {
            None
        };
        let body = if !is_ext {
            match self.expression() {
                Ok(b) => Some(b),
                Err(e) => return Err(e),
            }
        } else {
            None
        };
        Ok(Function { name, params, ret_type, body })
    }

    #[verifier::rlimit(80)]
    fn class(&mut self) -> (r: Result<Class, Error>)
        ensures
            res_view(r) == class(old(self).stream(), old(self).at()).out,
            old(self).moved(*final(self), class(old(self).stream(), old(self).at()).used),
    {
        let ghost toks = self.stream();
        let ghost p0 = self.at();
        let name = match self.consume(TKind::Identifier) {
            Ok(t) => t,
            Err(e) => return Err(e),
        };
        match self.consume(TKind::LeftBrace) {
            Ok(_) => {},
            Err(e) => return Err(e),
        }
        let ghost p2 = self.at();
        let mut members: Vec<Member> = Vec::new();
        let mut methods: Vec<Function> = Vec::new();
        let mut functions: Vec<Function> = Vec::new();
        proof {
            assert(member_views(members@) =~= Seq::empty());
            assert(function_views(methods@) =~= Seq::empty());
            assert(function_views(functions@) =~= Seq::empty());
        }
        let mut kind = self.kind();
        while kind != TKind::RightBrace
            invariant
                self.stream() == toks,
                toks == old(self).stream(),
                p0 == old(self).at(),
                p2 <= self.at(),
                kind == kind_at(toks, self.at()),
                expect(toks, p0, TKind::Identifier).out == Ok::<SpecToken, SpecError>(name@),
                expect(toks, p0 + 1, TKind::LeftBrace).out is Ok,
                p2 == p0 + 2,
                after(
                    (self.at() - p2) as nat,
                    class_body(
                        toks,
                        self.at(),
                        SpecClass {
                            name: name@,
                            members: member_views(members@),
                            methods: function_views(methods@),
                            functions: function_views(functions@),
                        },
                    ),
                ) == class_body(
                    toks,
                    p2,
                    SpecClass {
                        name: name@,
                        members: Seq::empty(),
                        methods: Seq::empty(),
                        functions: Seq::empty(),
                    },
                ),
            decreases remaining(toks, self.at()),
        {
            proof {
                use_type_invariant(&*self);
            }
            let ghost ms = member_views(members@);
            let ghost mt = function_views(methods@);
            let ghost fs = function_views(functions@);
            let _ = self.advance();
            if kind == TKind::Val || kind == TKind::Var {
                match self.member(kind == TKind::Var) {
                    Ok(m) => {
                        members.push(m);
                        assert(member_views(members@) =~= ms.push(members@.last()@));
                    },
                    Err(e) => return Err(e),
                }
            } else if kind == TKind::Fun {
                match self.function(false) {
                    Ok(f) => {
                        methods.push(f);
                        assert(function_views(methods@) =~= mt.push(methods@.last()@));
                    },
                    Err(e) => return Err(e),
                }
            } else if kind == TKind::Static && self.matches(TKind::Fun) {
                match self.function(false) {
                    Ok(f) => {
                        functions.push(f);
                        assert(function_views(functions@) =~= fs.push(functions@.last()@));
                    },
                    Err(e) => return Err(e),
                }
            } else {
                return Err(Error::new(self.start(), ErrorKind::E102));
            }
            kind = self.kind();
        }
        match self.consume(TKind::RightBrace) {
            Ok(_) => {},
            Err(e) => return Err(e),
        }
        Ok(Class { name, members, methods, functions })
    }

    fn higher_expr(&mut self) -> (r: Result<Expr, Error>)
        ensures
            res_view(r) == higher_expr(old(self).stream(), old(self).at()).out,
            old(self).moved(*final(self), higher_expr(old(self).stream(), old(self).at()).used),
            r is Ok ==> final(self).at() > old(self).at(),
        decreases remaining(old(self).stream(), old(self).at()), 12nat,
    {
        if self.check(TKind::Var) || self.check(TKind::Val) {
            self.var_decl()
        } else {
            self.expression()
        }
    }

    fn var_decl(&mut self) -> (r: Result<Expr, Error>)
        ensures
            res_view(r) == var_decl(old(self).stream(), old(self).at()).out,
            old(self).moved(*final(self), var_decl(old(self).stream(), old(self).at()).used),
            r is Ok ==> final(self).at() > old(self).at(),
        decreases remaining(old(self).stream(), old(self).at()), 11nat,
    {
        proof {
            use_type_invariant(&*self);
        }
        let ghost stuck = adv(self.stream(), self.at()) == 0;
        let final_ = self.advance().kind == TKind::Val;
        let name = match self.consume(TKind::Identifier) {
            Ok(t) => t,
            Err(e) => return Err(e),
        };
        match self.consume(TKind::Equal) {
            Ok(_) => {},
            Err(e) => return Err(e),
        }
        assert(!stuck);
        let value = match self.expression() {
            Ok(v) => v,
            Err(e) => return Err(e),
        };
        Ok(Expr { start: name.start, ty: Box::new(EExpr::Variable { final_, name, value }) })
    }

    fn expression(&mut self) -> (r: Result<Expr, Error>)
        ensures
            res_view(r) == expression(old(self).stream(), old(self).at()).out,
            old(self).moved(*final(self), expression(old(self).stream(), old(self).at()).used),
            r is Ok ==> final(self).at() > old(self).at(),
        decreases remaining(old(self).stream(), old(self).at()), 10nat,
    {
        match self.kind() {
            TKind::LeftBrace => self.block(),
            TKind::If => self.if_expr(),
            TKind::While => self.while_stmt(),
            _ => self.binary(0),
        }
    }

    fn block(&mut self) -> (r: Result<Expr, Error>)
        requires
            kind_at(old(self).stream(), old(self).at()) == TKind::LeftBrace,
        ensures
            res_view(r) == block(old(self).stream(), old(self).at()).out,
            old(self).moved(*final(self), block(old(self).stream(), old(self).at()).used),
            r is Ok ==> final(self).at() > old(self).at(),
        decreases remaining(old(self).stream(), old(self).at()), 9nat,
    {
        let ghost toks = self.stream();
        let ghost p0 = self.at();
        let brace = self.advance();
        let mut exprs: Vec<Expr> = Vec::new();
        assert(expr_views(exprs@) =~= Seq::empty());
        let mut kind = self.kind();
        while kind != TKind::Error && kind != TKind::RightBrace
            invariant
                self.stream() == toks,
                toks == old(self).stream(),
                p0 == old(self).at(),
                p0 + 1 <= self.at(),
                kind == kind_at(toks, self.at()),
                kind_at(toks, p0) == TKind::LeftBrace,
                after(
                    (self.at() - p0 - 1) as nat,
                    block_items(toks, self.at(), expr_views(exprs@)),
                ) == block_items(toks, p0 + 1, Seq::empty()),
            decreases remaining(toks, self.at()),
        {
            proof {
                use_type_invariant(&*self);
            }
            let ghost before = expr_views(exprs@);
            match self.higher_expr() {
                Ok(e) => {
                    exprs.push(e);
                    assert(expr_views(exprs@) =~= before.push(exprs@.last()@));
                },
                Err(e) => return Err(e),
            }
            kind = self.kind();
        }
        match self.consume(TKind::RightBrace) {
            Ok(_) => {},
            Err(e) => return Err(e),
        }
        let r = Expr { ty: Box::new(EExpr::Block(exprs)), start: brace.start };
        proof {
            assert(r@ == SpecExpr::Block { start: brace.start as nat, exprs: expr_views(exprs@) }) by {
                assert(r@->Block_exprs =~= expr_views(exprs@));
            }
        }
        Ok(r)
    }

    fn if_expr(&mut self) -> (r: Result<Expr, Error>)
        requires
            kind_at(old(self).stream(), old(self).at()) == TKind::If,
        ensures
            res_view(r) == if_expr(old(self).stream(), old(self).at()).out,
            old(self).moved(*final(self), if_expr(old(self).stream(), old(self).at()).used),
            r is Ok ==> final(self).at() > old(self).at(),
        decreases remaining(old(self).stream(), old(self).at()), 9nat,
    {
        proof {
            use_type_invariant(&*self);
        }
        let start = self.advance().start;
        match self.consume(TKind::LeftParen) {
            Ok(_) => {},
            Err(e) => return Err(e),
        }
        let cond = match self.expression() {
            Ok(v) => v,
            Err(e) => return Err(e),
        };
        match self.consume(TKind::RightParen) {
            Ok(_) => {},
            Err(e) => return Err(e),
        }
        let then = match self.expression() {
            Ok(v) => v,
            Err(e) => return Err(e),
        };
        let els = if self.matches(TKind::Else) {
            match self.expression() {
                Ok(v) => Some(v),
                Err(e) => return Err(e),
            }
        } else {
            None
        };
        Ok(Expr { ty: Box::new(EExpr::If { cond, then, els }), start })
    }

    fn while_stmt(&mut self) -> (r: Result<Expr, Error>)
        requires
            kind_at(old(self).stream(), old(self).at()) == TKind::While,
        ensures
            res_view(r) == while_stmt(old(self).stream(), old(self).at()).out,
            old(self).moved(*final(self), while_stmt(old(self).stream(), old(self).at()).used),
            r is Ok ==> final(self).at() > old(self).at(),
        decreases remaining(old(self).stream(), old(self).at()), 9nat,
    {
        proof {
            use_type_invariant(&*self);
        }
        let start = self.advance().start;
        match self.consume(TKind::LeftParen) {
            Ok(_) => {},
            Err(e) => return Err(e),
        }
        let cond = match self.expression() {
            Ok(v) => v,
            Err(e) => return Err(e),
        };
        match self.consume(TKind::RightParen) {
            Ok(_) => {},
            Err(e) => return Err(e),
        }
        let body = match self.expression() {
            Ok(v) => v,
            Err(e) => return Err(e),
        };
        Ok(Expr { ty: Box::new(EExpr::While { cond, body }), start })
    }

    fn binary(&mut self, minimum_binding_power: u8) -> (r: Result<Expr, Error>)
        ensures
            res_view(r) == binary(old(self).stream(), old(self).at(), minimum_binding_power).out,
            old(self).moved(
                *final(self),
                binary(old(self).stream(), old(self).at(), minimum_binding_power).used,
            ),
            r is Ok ==> final(self).at() > old(self).at(),
        decreases remaining(old(self).stream(), old(self).at()), 8nat,
    {
        let ghost toks = self.stream();
        let ghost p0 = self.at();
        let mut expr = match self.unary() {
            Ok(v) => v,
            Err(e) => return Err(e),
        };
        let ghost p1 = self.at();
        let mut power = self.kind().infix_binding_power();
        while power.is_some() && power.unwrap().0 >= minimum_binding_power
            invariant
                self.stream() == toks,
                toks == old(self).stream(),
                p0 == old(self).at(),
                p0 < p1 <= self.at(),
                unary(toks, p0).out is Ok,
                p1 == p0 + unary(toks, p0).used,
                power == infix_power(kind_at(toks, self.at())),
                after(
                    (self.at() - p1) as nat,
                    binary_rest(toks, self.at(), expr@, minimum_binding_power),
                ) == binary_rest(toks, p1, unary(toks, p0).out->Ok_0, minimum_binding_power),
            decreases remaining(toks, self.at()),
        {
            proof {
                use_type_invariant(&*self);
            }
            let rbp = power.unwrap().1;
            let op = self.advance();
            let right = match self.binary(rbp) {
                Ok(v) => v,
                Err(e) => return Err(e),
            };
            expr = Expr { start: expr.start, ty: Box::new(EExpr::Binary { left: expr, op, right }) };
            power = self.kind().infix_binding_power();
        }
        Ok(expr)
    }

    fn unary(&mut self) -> (r: Result<Expr, Error>)
        ensures
            res_view(r) == unary(old(self).stream(), old(self).at()).out,
            old(self).moved(*final(self), unary(old(self).stream(), old(self).at()).used),
            r is Ok ==> final(self).at() > old(self).at(),
        decreases remaining(old(self).stream(), old(self).at()), 7nat,
    {
        proof {
            use_type_invariant(&*self);
        }
        match self.kind().prefix_binding_power() {
            Some(rbp) => {
                let op = self.advance();
                let right = match self.binary(rbp) {
                    Ok(v) => v,
                    Err(e) => return Err(e),
                };
                Ok(Expr { start: op.start, ty: Box::new(EExpr::Unary { op, right }) })
            },
            None => self.call(),
        }
    }

    fn args(&mut self) -> (r: Result<Vec<Expr>, Error>)
        ensures
            ({
                let s = args(old(self).stream(), old(self).at(), Seq::empty());
                &&& old(self).moved(*final(self), s.used)
                &&& match r {
                    Ok(v) => s.out == Ok::<Seq<SpecExpr>, SpecError>(expr_views(v@)),
                    Err(e) => s.out == Err::<Seq<SpecExpr>, SpecError>(e@),
                }
            }),
        decreases remaining(old(self).stream(), old(self).at()), 14nat,
    {
        let ghost toks = self.stream();
        let ghost p0 = self.at();
        let mut out: Vec<Expr> = Vec::new();
        assert(expr_views(out@) =~= Seq::empty());
        loop
            invariant
                self.stream() == toks,
                toks == old(self).stream(),
                p0 == old(self).at(),
                p0 <= self.at(),
                remaining(toks, self.at()) <= remaining(toks, p0),
                after((self.at() - p0) as nat, args(toks, self.at(), expr_views(out@))) == args(
                    toks,
                    p0,
                    Seq::empty(),
                ),
            decreases remaining(toks, self.at()),
        {
            proof {
                use_type_invariant(&*self);
            }
            let ghost before = expr_views(out@);
            match self.expression() {
                Ok(e) => {
                    out.push(e);
                    assert(expr_views(out@) =~= before.push(out@.last()@));
                },
                Err(e) => return Err(e),
            }
            if !self.matches(TKind::Comma) {
                return Ok(out);
            }
        }
    }

    fn call(&mut self) -> (r: Result<Expr, Error>)
        ensures
            res_view(r) == call(old(self).stream(), old(self).at()).out,
            old(self).moved(*final(self), call(old(self).stream(), old(self).at()).used),
            r is Ok ==> final(self).at() > old(self).at(),
        decreases remaining(old(self).stream(), old(self).at()), 6nat,
    {
        let ghost toks = self.stream();
        let ghost p0 = self.at();
        let mut expr = match self.primary() {
            Ok(v) => v,
            Err(e) => return Err(e),
        };
        let ghost p1 = self.at();
        let mut kind = self.kind();
        while kind == TKind::LeftParen
            invariant
                self.stream() == toks,
                toks == old(self).stream(),
                p0 == old(self).at(),
                p0 < p1 <= self.at(),
                primary(toks, p0).out is Ok,
                p1 == p0 + primary(toks, p0).used,
                kind == kind_at(toks, self.at()),
                after((self.at() - p1) as nat, call_rest(toks, self.at(), expr@)) == call_rest(
                    toks,
                    p1,
                    primary(toks, p0).out->Ok_0,
                ),
            decreases remaining(toks, self.at()),
        {
            proof {
                use_type_invariant(&*self);
            }
            let _ = self.advance();
            let mut list: Vec<Expr> = Vec::new();
            assert(expr_views(list@) =~= Seq::empty());
            if !self.check(TKind::RightParen) {
                list = match self.args() {
                    Ok(v) => v,
                    Err(e) => return Err(e),
                };
            }
            match self.consume(TKind::RightParen) {
                Ok(_) => {},
                Err(e) => return Err(e),
            }
            let ghost callee = expr@;
            let ghost views = expr_views(list@);
            expr = Expr { start: expr.start, ty: Box::new(EExpr::Call { callee: expr, args: list }) };
            proof {
                assert(expr@ == SpecExpr::Call {
                    start: callee.start(),
                    callee: Box::new(callee),
                    args: views,
                }) by {
                    assert(expr@->Call_args =~= views);
                }
            }
            kind = self.kind();
        }
        Ok(expr)
    }

    fn primary(&mut self) -> (r: Result<Expr, Error>)
        ensures
            res_view(r) == primary(old(self).stream(), old(self).at()).out,
            old(self).moved(*final(self), primary(old(self).stream(), old(self).at()).used),
            r is Ok ==> final(self).at() > old(self).at(),
        decreases remaining(old(self).stream(), old(self).at()), 5nat,
    {
        proof {
            use_type_invariant(&*self);
        }
        match self.kind() {
            TKind::False => Ok(
                Expr {
                    ty: Box::new(EExpr::Literal(Literal::Bool(false))),
                    start: self.advance().start,
                },
            ),
            TKind::True => Ok(
                Expr {
                    ty: Box::new(EExpr::Literal(Literal::Bool(true))),
                    start: self.advance().start,
                },
            ),
            TKind::String => {
                let tok = self.advance();
                Ok(Expr { start: tok.start, ty: Box::new(EExpr::Literal(Literal::String(tok.lex))) })
            },
            TKind::Int => {
                let value = if self.pos < self.tokens.len() {
                    int_of(&self.tokens[self.pos].lex)
                } else {
                    None
                };
                match value {
                    Some(i) => Ok(
                        Expr {
                            ty: Box::new(EExpr::Literal(Literal::Int(i))),
                            start: self.advance().start,
                        },
                    ),
                    None => Err(Error::new(self.start(), ErrorKind::E101)),
                }
            },
            TKind::Float => {
                let tok = self.advance();
                Ok(Expr { start: tok.start, ty: Box::new(EExpr::Literal(Literal::Float(tok.lex))) })
            },
            TKind::Identifier => {
                let tok = self.advance();
                Ok(Expr { start: tok.start, ty: Box::new(EExpr::Identifier(tok)) })
            },
            TKind::LeftParen => {
                let _ = self.advance();
                let expr = match self.expression() {
                    Ok(v) => v,
                    Err(e) => return Err(e),
                };
                match self.consume(TKind::RightParen) {
                    Ok(_) => Ok(expr),
                    Err(e) => Err(e),
                }
            },
            _ => Err(Error::new(self.start(), ErrorKind::E101)),
        }
    }

    fn synchronize(&mut self)
        ensures
            old(self).moved(*final(self), sync(old(self).stream(), old(self).at())),
    {
        let ghost toks = self.stream();
        let ghost p0 = self.at();
        let mut kind = self.kind();
        while kind != TKind::Error && kind != TKind::Fun && kind != TKind::Class
            invariant
                self.stream() == toks,
                toks == old(self).stream(),
                p0 == old(self).at(),
                p0 <= self.at(),
                kind == kind_at(toks, self.at()),
                (self.at() - p0) + sync(toks, self.at()) == sync(toks, p0),
            decreases remaining(toks, self.at()),
        {
            proof {
                use_type_invariant(&*self);
            }
            let _ = self.advance();
            kind = self.kind();
        }
    }

    /// Reads the whole module. Every failure is kept, and reading goes on
    /// behind it at the next `fun` or `class`.
    pub fn parse(self, path: Vec<SmolStr>) -> (r: Result<Module, Vec<Error>>)
        ensures
            module_res_view(r) == self.outcome(name_views(path@)),
    {
        let mut this = self;
        let ghost toks = this.stream();
        let ghost p0 = this.at();
        let ghost start = Items {
            functions: Seq::empty(),
            classes: Seq::empty(),
            errors: Seq::empty(),
        };
        let mut functions: Vec<Function> = Vec::new();
        let mut classes: Vec<Class> = Vec::new();
        let mut errors: Vec<Error> = Vec::new();
        proof {
            assert(function_views(functions@) =~= Seq::empty());
            assert(class_views(classes@) =~= Seq::empty());
            assert(error_views(errors@) =~= Seq::empty());
        }
        let mut kind = this.kind();
        while kind != TKind::Error
            invariant
                this.stream() == toks,
                kind == kind_at(toks, this.at()),
                items(
                    toks,
                    this.at(),
                    Items {
                        functions: function_views(functions@),
                        classes: class_views(classes@),
                        errors: error_views(errors@),
                    },
                ) == items(toks, p0, start),
            decreases remaining(toks, this.at()),
        {
            proof {
                use_type_invariant(&this);
            }
            let ghost fs = function_views(functions@);
            let ghost cs = class_views(classes@);
            let ghost errs = error_views(errors@);
            let _ = this.advance();
            if kind == TKind::Class {
                match this.class() {
                    Ok(c) => {
                        classes.push(c);
                        assert(class_views(classes@) =~= cs.push(classes@.last()@));
                    },
                    Err(e) => {
                        errors.push(e);
                        assert(error_views(errors@) =~= errs.push(errors@.last()@));
                        this.synchronize();
                    },
                }
            } else if kind == TKind::Fun || (kind == TKind::Extern && this.check(TKind::Fun)) {
                let is_ext = kind == TKind::Extern;
                if is_ext {
                    let _ = this.advance();
                }
                match this.function(is_ext) {
                    Ok(f) => {
                        functions.push(f);
                        assert(function_views(functions@) =~= fs.push(functions@.last()@));
                    },
                    Err(e) => {
                        errors.push(e);
                        assert(error_views(errors@) =~= errs.push(errors@.last()@));
                        this.synchronize();
                    },
                }
            } else {
                errors.push(Error::new(this.start(), ErrorKind::E102));
                assert(error_views(errors@) =~= errs.push(errors@.last()@));
                this.synchronize();
            }
            kind = this.kind();
        }
        if errors.len() == 0 {
            Ok(Module { functions, classes, path })
        } else {
            Err(errors)
        }
    }
}

} // verus!
