//! Offsets in syntax trees never go back: what is read later begins later.

use crate::lexer::end_token;
use crate::lexer::lemma_token_bounds;
use crate::lexer::lemma_trivia_bounds;
use crate::lexer::next_start;
use crate::lexer::token_at;
use crate::lexer::token_from;
use crate::lexer::tokens_from;
use crate::lexer::tokens_of;
use crate::lexer::infix_power;
use crate::lexer::prefix_power;
use crate::lexer::SpecToken;
use crate::lexer::TKind;
use crate::parser::adv;
use crate::parser::args;
use crate::parser::ast::ascending;
use crate::parser::ast::starts;
use crate::parser::ast::starts_all;
use crate::parser::ast::SpecExpr;
use crate::parser::binary;
use crate::parser::binary_rest;
use crate::parser::block;
use crate::parser::block_items;
use crate::parser::call;
use crate::parser::call_rest;
use crate::parser::expect;
use crate::parser::expression;
use crate::parser::higher_expr;
use crate::parser::if_expr;
use crate::parser::kind_at;
use crate::parser::primary;
use crate::parser::remaining;
use crate::parser::tok_at;
use crate::parser::unary;
use crate::parser::var_decl;
use crate::parser::while_stmt;
use vstd::prelude::*;

verus! {

/// Whether no token of `toks` begins before one that stands before it.
pub open spec fn ordered(toks: Seq<SpecToken>) -> bool {
    forall|i: int, j: int| 0 <= i <= j < toks.len() ==> toks[i].start <= toks[j].start
}

/// The tokens from `pos` on begin at `pos` or behind it, each behind the one
/// before.
pub proof fn lemma_tokens_ordered(src: Seq<u8>, pos: int)
    requires
        0 <= pos <= src.len(),
    ensures
        ordered(tokens_from(src, pos)),
        forall|i: int|
            0 <= i < tokens_from(src, pos).len() ==> pos <= (#[trigger] tokens_from(
                src,
                pos,
            )[i]).start,
    decreases src.len() - pos,
{
    lemma_trivia_bounds(src, pos);
    let start = next_start(src, pos);
    if start < src.len() {
        lemma_token_bounds(src, start);
        let end = start + token_at(src, start).1;
        lemma_tokens_ordered(src, end);
        let rest = tokens_from(src, end);
        let all = tokens_from(src, pos);
        assert(all == seq![token_from(src, start)] + rest);
        assert forall|i: int, j: int| 0 <= i <= j < all.len() implies all[i].start
            <= all[j].start by {
            if i > 0 {
                assert(all[i] == rest[i - 1]);
                assert(all[j] == rest[j - 1]);
            } else if j > 0 {
                assert(all[j] == rest[j - 1]);
            }
        }
        assert forall|i: int| 0 <= i < all.len() implies pos <= (#[trigger] all[i]).start by {
            if i > 0 {
                assert(all[i] == rest[i - 1]);
            }
        }
    } else {
        assert(tokens_from(src, pos) == seq![end_token(src)]);
    }
}

/// Whether the numbers of `s` lie between `lo` and `hi` and none is smaller
/// than one before it.
pub open spec fn rising(s: Seq<nat>, lo: nat, hi: nat) -> bool {
    &&& ascending(s)
    &&& forall|i: int| 0 <= i < s.len() ==> lo <= #[trigger] s[i] <= hi
}

/// What rises up to some number, followed by what rises from a number that
/// is no smaller, rises.
pub proof fn lemma_rising_join(a: Seq<nat>, b: Seq<nat>, lo: nat, m1: nat, m2: nat, hi: nat)
    requires
        rising(a, lo, m1),
        rising(b, m2, hi),
        m1 <= m2,
        lo <= m2,
        m1 <= hi,
    ensures
        rising(a + b, lo, hi),
{
    let s = a + b;
    assert forall|i: int, j: int| 0 <= i <= j < s.len() implies s[i] <= s[j] by {
        if j < a.len() {
            assert(s[i] == a[i] && s[j] == a[j]);
        } else if i < a.len() {
            assert(s[i] == a[i] && s[j] == b[j - a.len()]);
        } else {
            assert(s[i] == b[i - a.len()] && s[j] == b[j - a.len()]);
        }
    }
    assert forall|i: int| 0 <= i < s.len() implies lo <= #[trigger] s[i] <= hi by {
        if i < a.len() {
            assert(s[i] == a[i]);
        } else {
            assert(s[i] == b[i - a.len()]);
        }
    }
}

/// The first offset of an expression is where the expression begins.
pub proof fn lemma_starts_first(e: SpecExpr)
    ensures
        starts(e).len() >= 1,
        starts(e)[0] == e.start(),
{
}

/// What rises, rises from its first number on, and that number rises
/// before it.
pub proof fn lemma_rising_under_first(s: Seq<nat>, lo: nat, hi: nat)
    requires
        rising(s, lo, hi),
        s.len() >= 1,
    ensures
        rising(seq![s[0]] + s, lo, hi),
{
    let t = seq![s[0]] + s;
    assert forall|i: int, j: int| 0 <= i <= j < t.len() implies t[i] <= t[j] by {
        if i == 0 {
            if j > 0 {
                assert(t[j] == s[j - 1]);
            }
        } else {
            assert(t[i] == s[i - 1] && t[j] == s[j - 1]);
        }
    }
    assert forall|i: int| 0 <= i < t.len() implies lo <= #[trigger] t[i] <= hi by {
        if i > 0 {
            assert(t[i] == s[i - 1]);
        }
    }
}

/// The offsets of the first expressions of a list do not depend on what
/// follows them.
pub proof fn lemma_starts_all_prefix(es: Seq<SpecExpr>, v: SpecExpr, n: nat)
    requires
        n <= es.len(),
    ensures
        starts_all(es.push(v), n) == starts_all(es, n),
    decreases n,
{
    if n > 0 {
        lemma_starts_all_prefix(es, v, (n - 1) as nat);
        assert(es.push(v)[n - 1] == es[n - 1]);
    }
}

/// The offsets of a list with one more expression are those of the list,
/// then those of the expression.
pub proof fn lemma_starts_all_push(es: Seq<SpecExpr>, v: SpecExpr)
    ensures
        starts_all(es.push(v), es.len() + 1) == starts_all(es, es.len()) + starts(v),
{
    lemma_starts_all_prefix(es, v, es.len());
    assert(es.push(v)[es.len() as int] == v);
}

/// Where the token at `pos` begins.
pub open spec fn begin(toks: Seq<SpecToken>, pos: int) -> nat {
    tok_at(toks, pos).start
}

/// Whether the offsets `s` fit the `used` tokens from `pos` on: at least one
/// token is used, all used tokens are there, and the offsets rise from the
/// first of them to the last.
pub open spec fn fits(toks: Seq<SpecToken>, pos: int, used: nat, s: Seq<nat>) -> bool {
    &&& used >= 1
    &&& 0 <= pos
    &&& pos + used <= toks.len()
    &&& rising(s, begin(toks, pos), begin(toks, pos + used - 1))
}

/// A token that is taken is there.
proof fn lemma_expect_used(toks: Seq<SpecToken>, pos: int, kind: TKind)
    requires
        kind != TKind::Error,
        expect(toks, pos, kind).out is Ok,
    ensures
        expect(toks, pos, kind).used == 1,
        0 <= pos < toks.len(),
        expect(toks, pos, kind).out->Ok_0 == toks[pos],
{
}

proof fn lemma_higher_expr(toks: Seq<SpecToken>, pos: int)
    requires
        ordered(toks),
        higher_expr(toks, pos).out is Ok,
    ensures
        fits(toks, pos, higher_expr(toks, pos).used, starts(higher_expr(toks, pos).out->Ok_0)),
    decreases remaining(toks, pos), 12nat,
{
    if kind_at(toks, pos) == TKind::Var || kind_at(toks, pos) == TKind::Val {
        lemma_var_decl(toks, pos);
    } else {
        lemma_expression(toks, pos);
    }
}

proof fn lemma_var_decl(toks: Seq<SpecToken>, pos: int)
    requires
        ordered(toks),
        var_decl(toks, pos).out is Ok,
    ensures
        fits(toks, pos, var_decl(toks, pos).used, starts(var_decl(toks, pos).out->Ok_0)),
    decreases remaining(toks, pos), 11nat,
{
    let p1 = pos + adv(toks, pos);
    let name = expect(toks, p1, TKind::Identifier);
    lemma_expect_used(toks, p1, TKind::Identifier);
    let p2 = p1 + name.used;
    let eq = expect(toks, p2, TKind::Equal);
    lemma_expect_used(toks, p2, TKind::Equal);
    let p3 = p2 + eq.used;
    let value = expression(toks, p3);
    lemma_expression(toks, p3);
    let v = value.out->Ok_0;
    let last = p3 + value.used - 1;
    lemma_rising_join(
        seq![toks[p1].start],
        starts(v),
        begin(toks, pos),
        begin(toks, p1),
        begin(toks, p3),
        begin(toks, last),
    );
}

proof fn lemma_expression(toks: Seq<SpecToken>, pos: int)
    requires
        ordered(toks),
        expression(toks, pos).out is Ok,
    ensures
        fits(toks, pos, expression(toks, pos).used, starts(expression(toks, pos).out->Ok_0)),
    decreases remaining(toks, pos), 10nat,
{
    match kind_at(toks, pos) {
        TKind::LeftBrace => lemma_block(toks, pos),
        TKind::If => lemma_if_expr(toks, pos),
        TKind::While => lemma_while_stmt(toks, pos),
        _ => lemma_binary(toks, pos, 0),
    }
}

proof fn lemma_block_items(toks: Seq<SpecToken>, p0: int, pos: int, acc: Seq<SpecExpr>)
    requires
        ordered(toks),
        0 <= p0 <= pos <= toks.len(),
        acc.len() > 0 ==> p0 < pos,
        rising(starts_all(acc, acc.len()), begin(toks, p0), begin(toks, pos - 1)),
        block_items(toks, pos, acc).out is Ok,
    ensures
        ({
            let r = block_items(toks, pos, acc);
            &&& pos + r.used <= toks.len()
            &&& rising(
                starts_all(r.out->Ok_0, (r.out->Ok_0).len()),
                begin(toks, p0),
                begin(toks, pos + r.used - 1),
            )
        }),
    decreases remaining(toks, pos), 13nat,
{
    if !(kind_at(toks, pos) == TKind::Error || kind_at(toks, pos) == TKind::RightBrace) {
        let e = higher_expr(toks, pos);
        lemma_higher_expr(toks, pos);
        let v = e.out->Ok_0;
        lemma_starts_all_push(acc, v);
        let next = pos + e.used;
        if acc.len() == 0 {
            assert(starts_all(acc, 0) =~= Seq::empty());
            assert(starts_all(acc, 0) + starts(v) =~= starts(v));
            assert(rising(starts(v), begin(toks, p0), begin(toks, next - 1)));
        } else {
            lemma_rising_join(
                starts_all(acc, acc.len()),
                starts(v),
                begin(toks, p0),
                begin(toks, pos - 1),
                begin(toks, pos),
                begin(toks, next - 1),
            );
        }
        lemma_block_items(toks, p0, next, acc.push(v));
    }
}

proof fn lemma_block(toks: Seq<SpecToken>, pos: int)
    requires
        ordered(toks),
        block(toks, pos).out is Ok,
    ensures
        fits(toks, pos, block(toks, pos).used, starts(block(toks, pos).out->Ok_0)),
    decreases remaining(toks, pos), 9nat,
{
    let items = block_items(toks, pos + 1, Seq::empty());
    let exprs = items.out->Ok_0;
    assert(starts_all(Seq::<SpecExpr>::empty(), 0) =~= Seq::empty());
    lemma_block_items(toks, pos + 1, pos + 1, Seq::empty());
    let close = pos + 1 + items.used;
    lemma_expect_used(toks, close, TKind::RightBrace);
    lemma_rising_join(
        seq![toks[pos].start],
        starts_all(exprs, exprs.len()),
        begin(toks, pos),
        begin(toks, pos),
        begin(toks, pos + 1),
        begin(toks, close),
    );
    assert(forall|i: int|
        0 <= i < starts_all(exprs, exprs.len()).len() ==> (#[trigger] starts_all(
            exprs,
            exprs.len(),
        )[i]) <= begin(toks, close));
}

proof fn lemma_if_expr(toks: Seq<SpecToken>, pos: int)
    requires
        ordered(toks),
        if_expr(toks, pos).out is Ok,
    ensures
        fits(toks, pos, if_expr(toks, pos).used, starts(if_expr(toks, pos).out->Ok_0)),
    decreases remaining(toks, pos), 9nat,
{
    lemma_expect_used(toks, pos + 1, TKind::LeftParen);
    let p2 = pos + 2;
    let cond = expression(toks, p2);
    lemma_expression(toks, p2);
    let p3 = p2 + cond.used;
    lemma_expect_used(toks, p3, TKind::RightParen);
    let p4 = p3 + 1;
    let then = expression(toks, p4);
    lemma_expression(toks, p4);
    let p5 = p4 + then.used;
    let c = cond.out->Ok_0;
    let t = then.out->Ok_0;
    lemma_rising_join(
        seq![toks[pos].start],
        starts(c),
        begin(toks, pos),
        begin(toks, pos),
        begin(toks, p2),
        begin(toks, p3 - 1),
    );
    lemma_rising_join(
        seq![toks[pos].start] + starts(c),
        starts(t),
        begin(toks, pos),
        begin(toks, p3 - 1),
        begin(toks, p4),
        begin(toks, p5 - 1),
    );
    if kind_at(toks, p5) == TKind::Else {
        let els = expression(toks, p5 + 1);
        lemma_expression(toks, p5 + 1);
        lemma_rising_join(
            seq![toks[pos].start] + starts(c) + starts(t),
            starts(els.out->Ok_0),
            begin(toks, pos),
            begin(toks, p5 - 1),
            begin(toks, p5 + 1),
            begin(toks, p5 + els.used),
        );
    } else {
        assert(seq![toks[pos].start] + starts(c) + starts(t) + Seq::<nat>::empty() =~= seq![
            toks[pos].start,
        ] + starts(c) + starts(t));
    }
}

proof fn lemma_while_stmt(toks: Seq<SpecToken>, pos: int)
    requires
        ordered(toks),
        while_stmt(toks, pos).out is Ok,
    ensures
        fits(toks, pos, while_stmt(toks, pos).used, starts(while_stmt(toks, pos).out->Ok_0)),
    decreases remaining(toks, pos), 9nat,
{
    lemma_expect_used(toks, pos + 1, TKind::LeftParen);
    let p2 = pos + 2;
    let cond = expression(toks, p2);
    lemma_expression(toks, p2);
    let p3 = p2 + cond.used;
    lemma_expect_used(toks, p3, TKind::RightParen);
    let p4 = p3 + 1;
    let body = expression(toks, p4);
    lemma_expression(toks, p4);
    let p5 = p4 + body.used;
    lemma_rising_join(
        seq![toks[pos].start],
        starts(cond.out->Ok_0),
        begin(toks, pos),
        begin(toks, pos),
        begin(toks, p2),
        begin(toks, p3 - 1),
    );
    lemma_rising_join(
        seq![toks[pos].start] + starts(cond.out->Ok_0),
        starts(body.out->Ok_0),
        begin(toks, pos),
        begin(toks, p3 - 1),
        begin(toks, p4),
        begin(toks, p5 - 1),
    );
}

proof fn lemma_binary(toks: Seq<SpecToken>, pos: int, min_bp: u8)
    requires
        ordered(toks),
        binary(toks, pos, min_bp).out is Ok,
    ensures
        fits(
            toks,
            pos,
            binary(toks, pos, min_bp).used,
            starts(binary(toks, pos, min_bp).out->Ok_0),
        ),
    decreases remaining(toks, pos), 8nat,
{
    let first = unary(toks, pos);
    lemma_unary(toks, pos);
    lemma_binary_rest(toks, pos, pos + first.used, first.out->Ok_0, min_bp);
}

proof fn lemma_binary_rest(toks: Seq<SpecToken>, p0: int, pos: int, left: SpecExpr, min_bp: u8)
    requires
        ordered(toks),
        0 <= p0 < pos <= toks.len(),
        rising(starts(left), begin(toks, p0), begin(toks, pos - 1)),
        binary_rest(toks, pos, left, min_bp).out is Ok,
    ensures
        ({
            let r = binary_rest(toks, pos, left, min_bp);
            &&& pos + r.used <= toks.len()
            &&& rising(starts(r.out->Ok_0), begin(toks, p0), begin(toks, pos + r.used - 1))
        }),
    decreases remaining(toks, pos), 2nat,
{
    match infix_power(kind_at(toks, pos)) {
        None => {},
        Some((lbp, rbp)) => {
            if lbp >= min_bp {
                let right = binary(toks, pos + 1, rbp);
                lemma_binary(toks, pos + 1, rbp);
                let r = right.out->Ok_0;
                let next = pos + 1 + right.used;
                lemma_starts_first(left);
                lemma_rising_under_first(starts(left), begin(toks, p0), begin(toks, pos - 1));
                lemma_rising_join(
                    seq![left.start()] + starts(left),
                    starts(r),
                    begin(toks, p0),
                    begin(toks, pos - 1),
                    begin(toks, pos + 1),
                    begin(toks, next - 1),
                );
                lemma_binary_rest(
                    toks,
                    p0,
                    next,
                    SpecExpr::Binary {
                        start: left.start(),
                        left: Box::new(left),
                        op: tok_at(toks, pos),
                        right: Box::new(r),
                    },
                    min_bp,
                );
            }
        },
    }
}

proof fn lemma_unary(toks: Seq<SpecToken>, pos: int)
    requires
        ordered(toks),
        unary(toks, pos).out is Ok,
    ensures
        fits(toks, pos, unary(toks, pos).used, starts(unary(toks, pos).out->Ok_0)),
    decreases remaining(toks, pos), 7nat,
{
    match prefix_power(kind_at(toks, pos)) {
        Some(rbp) => {
            let right = binary(toks, pos + 1, rbp);
            lemma_binary(toks, pos + 1, rbp);
            lemma_rising_join(
                seq![toks[pos].start],
                starts(right.out->Ok_0),
                begin(toks, pos),
                begin(toks, pos),
                begin(toks, pos + 1),
                begin(toks, pos + right.used),
            );
        },
        None => lemma_call(toks, pos),
    }
}

proof fn lemma_call(toks: Seq<SpecToken>, pos: int)
    requires
        ordered(toks),
        call(toks, pos).out is Ok,
    ensures
        fits(toks, pos, call(toks, pos).used, starts(call(toks, pos).out->Ok_0)),
    decreases remaining(toks, pos), 6nat,
{
    let first = primary(toks, pos);
    lemma_primary(toks, pos);
    lemma_call_rest(toks, pos, pos + first.used, first.out->Ok_0);
}

proof fn lemma_call_rest(toks: Seq<SpecToken>, p0: int, pos: int, callee: SpecExpr)
    requires
        ordered(toks),
        0 <= p0 < pos <= toks.len(),
        rising(starts(callee), begin(toks, p0), begin(toks, pos - 1)),
        call_rest(toks, pos, callee).out is Ok,
    ensures
        ({
            let r = call_rest(toks, pos, callee);
            &&& pos + r.used <= toks.len()
            &&& rising(starts(r.out->Ok_0), begin(toks, p0), begin(toks, pos + r.used - 1))
        }),
    decreases remaining(toks, pos), 1nat,
{
    if kind_at(toks, pos) == TKind::LeftParen {
        let some = kind_at(toks, pos + 1) != TKind::RightParen;
        let list = if some {
            args(toks, pos + 1, Seq::empty())
        } else {
            crate::parser::done(Seq::empty(), 0)
        };
        let a = list.out->Ok_0;
        assert(starts_all(Seq::<SpecExpr>::empty(), 0) =~= Seq::empty());
        if some {
            lemma_args(toks, pos + 1, pos + 1, Seq::empty());
        }
        let p2 = pos + 1 + list.used;
        lemma_expect_used(toks, p2, TKind::RightParen);
        lemma_starts_first(callee);
        lemma_rising_under_first(starts(callee), begin(toks, p0), begin(toks, pos - 1));
        lemma_rising_join(
            seq![callee.start()] + starts(callee),
            starts_all(a, a.len()),
            begin(toks, p0),
            begin(toks, pos - 1),
            begin(toks, pos + 1),
            begin(toks, p2),
        );
        lemma_call_rest(
            toks,
            p0,
            p2 + 1,
            SpecExpr::Call { start: callee.start(), callee: Box::new(callee), args: a },
        );
    }
}

proof fn lemma_args(toks: Seq<SpecToken>, p0: int, pos: int, acc: Seq<SpecExpr>)
    requires
        ordered(toks),
        0 <= p0 <= pos <= toks.len(),
        acc.len() > 0 ==> p0 < pos,
        rising(starts_all(acc, acc.len()), begin(toks, p0), begin(toks, pos - 1)),
        args(toks, pos, acc).out is Ok,
    ensures
        ({
            let r = args(toks, pos, acc);
            &&& r.used >= 1
            &&& pos + r.used <= toks.len()
            &&& rising(
                starts_all(r.out->Ok_0, (r.out->Ok_0).len()),
                begin(toks, p0),
                begin(toks, pos + r.used - 1),
            )
        }),
    decreases remaining(toks, pos), 13nat,
{
    let e = expression(toks, pos);
    lemma_expression(toks, pos);
    let v = e.out->Ok_0;
    lemma_starts_all_push(acc, v);
    let next = pos + e.used;
    if acc.len() == 0 {
        assert(starts_all(acc, 0) =~= Seq::empty());
        assert(starts_all(acc, 0) + starts(v) =~= starts(v));
        assert(rising(starts(v), begin(toks, p0), begin(toks, next - 1)));
    } else {
        lemma_rising_join(
            starts_all(acc, acc.len()),
            starts(v),
            begin(toks, p0),
            begin(toks, pos - 1),
            begin(toks, pos),
            begin(toks, next - 1),
        );
    }
    if kind_at(toks, next) == TKind::Comma {
        assert(forall|i: int|
            0 <= i < starts_all(acc.push(v), acc.len() + 1).len() ==> (#[trigger] starts_all(
                acc.push(v),
                acc.len() + 1,
            )[i]) <= begin(toks, next));
        lemma_args(toks, p0, next + 1, acc.push(v));
    }
}

proof fn lemma_primary(toks: Seq<SpecToken>, pos: int)
    requires
        ordered(toks),
        primary(toks, pos).out is Ok,
    ensures
        fits(toks, pos, primary(toks, pos).used, starts(primary(toks, pos).out->Ok_0)),
    decreases remaining(toks, pos), 5nat,
{
    let tok = tok_at(toks, pos);
    match tok.kind {
        TKind::LeftParen => {
            let inner = expression(toks, pos + 1);
            lemma_expression(toks, pos + 1);
            lemma_expect_used(toks, pos + 1 + inner.used, TKind::RightParen);
        },
        _ => {},
    }
}

/// Whatever expression is read from the tokens of a source, the offsets in
/// it never go back: going through the expression, each part before the
/// parts inside it and those from left to right, no offset is smaller than
/// one met before.
pub proof fn lemma_offsets_never_go_back(src: Seq<u8>, pos: int)
    requires
        expression(tokens_of(src), pos).out is Ok,
    ensures
        ascending(starts(expression(tokens_of(src), pos).out->Ok_0)),
{
    lemma_tokens_ordered(src, 0);
    lemma_expression(tokens_of(src), pos);
}

} // verus!
