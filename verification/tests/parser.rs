use yacari::error::Error;
use yacari::error::ErrorKind;
use yacari::lexer::TKind;
use yacari::parser::ast::EExpr;
use yacari::parser::ast::Expr;
use yacari::parser::ast::Literal;
use yacari::parser::ast::Module;
use yacari::parser::Parser;
use yacari::smol_str::SmolStr;

fn parse(src: &str) -> Module {
    match Parser::new(src).parse(vec![SmolStr::new("test")]) {
        Ok(m) => m,
        Err(errors) => panic!("{} errors, first E{} at {}", errors.len(), errors[0].code(), errors[0].start),
    }
}

fn errors(src: &str) -> Vec<Error> {
    match Parser::new(src).parse(vec![SmolStr::new("test")]) {
        Ok(_) => panic!("parsed"),
        Err(errors) => errors,
    }
}

fn show(e: &Expr) -> String {
    match &*e.ty {
        EExpr::Literal(Literal::Bool(b)) => format!("{}", b),
        EExpr::Literal(Literal::Int(i)) => format!("{}", i),
        EExpr::Literal(Literal::Float(t)) => t.as_str(),
        EExpr::Literal(Literal::String(t)) => t.as_str(),
        EExpr::Identifier(t) => t.lex.as_str(),
        EExpr::Variable { final_, name, value } => {
            format!("({} {} {})", if *final_ { "val" } else { "var" }, name.lex.as_str(), show(value))
        },
        EExpr::Block(exprs) => {
            let inner: Vec<String> = exprs.iter().map(show).collect();
            format!("{{{}}}", inner.join(" "))
        },
        EExpr::If { cond, then, els } => match els {
            Some(e) => format!("(if {} {} {})", show(cond), show(then), show(e)),
            None => format!("(if {} {})", show(cond), show(then)),
        },
        EExpr::While { cond, body } => format!("(while {} {})", show(cond), show(body)),
        EExpr::Binary { left, op, right } => {
            format!("({} {} {})", op.lex.as_str(), show(left), show(right))
        },
        EExpr::Unary { op, right } => format!("({} {})", op.lex.as_str(), show(right)),
        EExpr::Call { callee, args } => {
            let inner: Vec<String> = args.iter().map(show).collect();
            format!("(call {} [{}])", show(callee), inner.join(" "))
        },
    }
}

fn body(src: &str) -> String {
    let module = parse(&format!("fun main() {}", src));
    show(module.functions[0].body.as_ref().unwrap())
}

#[test]
fn operators_bind_by_their_power() {
    assert_eq!(body("1 + 2 * 3"), "(+ 1 (* 2 3))");
    assert_eq!(body("1 * 2 + 3"), "(+ (* 1 2) 3)");
    assert_eq!(body("1 - 2 - 3"), "(- 1 (- 2 3))");
    assert_eq!(body("1 * 2 * 3 + 4"), "(+ (* 1 (* 2 3)) 4)");
    assert_eq!(body("a = b = c"), "(= a (= b c))");
    assert_eq!(body("a or b and c"), "(or a (and b c))");
    assert_eq!(body("a == b < c"), "(== a (< b c))");
    assert_eq!(body("a < b + c"), "(< a (+ b c))");
    assert_eq!(body("a + b < c"), "(+ a (< b c))");
    assert_eq!(body("a * b is c"), "(* a (is b c))");
    assert_eq!(body("a = b or c"), "(= a (or b c))");
    assert_eq!(body("(1 + 2) * 3"), "(* (+ 1 2) 3)");
    assert_eq!(body("-a * b"), "(* (- a) b)");
    assert_eq!(body("!a == b"), "(== (! a) b)");
    assert_eq!(body("- - a"), "(- (- a))");
    assert_eq!(body("-f(1)"), "(- (call f [1]))");
}

#[test]
fn every_form_of_expression_is_read() {
    assert_eq!(body("{ }"), "{}");
    assert_eq!(body("{ 1 2 }"), "{1 2}");
    assert_eq!(body("{ var a = 1 val b = a a + b }"), "{(var a 1) (val b a) (+ a b)}");
    assert_eq!(body("if (a) 1"), "(if a 1)");
    assert_eq!(body("if (a) 1 else 2"), "(if a 1 2)");
    assert_eq!(body("if (a) if (b) 1 else 2"), "(if a (if b 1 2))");
    assert_eq!(body("while (a < 3) { a = a + 1 }"), "(while (< a 3) {(= a (+ a 1))})");
    assert_eq!(body("f()"), "(call f [])");
    assert_eq!(body("f(1, g(2), 3 + 4)"), "(call f [1 (call g [2]) (+ 3 4)])");
    assert_eq!(body("f(1)(2)"), "(call (call f [1]) [2])");
    assert_eq!(body("{ true false \"s\" 1.5 x }"), "{true false \"s\" 1.5 x}");
    assert_eq!(body("{ 9223372036854775807 }"), "{9223372036854775807}");
    assert_eq!(body("f({ 1 }, if (a) 2 else 3)"), "(call f [{1} (if a 2 3)])");
}

#[test]
fn declarations_are_read() {
    let m = parse(
        "extern fun host(a: i64, b: f64) -> bool\n\
         fun local(x: Point) { }\n\
         class Point { val x: i64 var y: i64 fun len() -> i64 { 1 } static fun zero() -> Point { 0 } }\n\
         fun last() -> i64 5",
    );
    assert_eq!(m.path.len(), 1);
    assert_eq!(m.path[0].as_str(), "test");
    assert_eq!(m.functions.len(), 3);
    let host = &m.functions[0];
    assert_eq!(host.name.lex.as_str(), "host");
    assert_eq!(host.name.start, 11);
    assert!(host.body.is_none());
    assert_eq!(host.params.len(), 2);
    assert_eq!(host.params[0].name.as_str(), "a");
    assert_eq!(host.params[0].ty.name.lex.as_str(), "i64");
    assert_eq!(host.params[1].name.as_str(), "b");
    assert_eq!(host.params[1].ty.name.lex.as_str(), "f64");
    assert_eq!(host.ret_type.as_ref().unwrap().name.lex.as_str(), "bool");
    let local = &m.functions[1];
    assert_eq!(local.name.lex.as_str(), "local");
    assert!(local.ret_type.is_none());
    assert_eq!(show(local.body.as_ref().unwrap()), "{}");
    assert_eq!(show(m.functions[2].body.as_ref().unwrap()), "5");
    assert_eq!(m.classes.len(), 1);
    let point = &m.classes[0];
    assert_eq!(point.name.lex.as_str(), "Point");
    assert_eq!(point.members.len(), 2);
    assert_eq!(point.members[0].name.lex.as_str(), "x");
    assert!(!point.members[0].mutable);
    assert_eq!(point.members[1].name.lex.as_str(), "y");
    assert!(point.members[1].mutable);
    assert_eq!(point.methods.len(), 1);
    assert_eq!(point.methods[0].name.lex.as_str(), "len");
    assert_eq!(point.functions.len(), 1);
    assert_eq!(point.functions[0].name.lex.as_str(), "zero");
}

#[test]
fn an_empty_source_is_an_empty_module() {
    for src in ["", "  \n", "// nothing", "/* nothing */"] {
        let m = parse(src);
        assert_eq!(m.functions.len(), 0);
        assert_eq!(m.classes.len(), 0);
    }
}

fn starts(e: &Expr, out: &mut Vec<usize>) {
    out.push(e.start);
    match &*e.ty {
        EExpr::Literal(_) | EExpr::Identifier(_) => {},
        EExpr::Variable { value, .. } => starts(value, out),
        EExpr::Block(exprs) => {
            for x in exprs {
                starts(x, out);
            }
        },
        EExpr::If { cond, then, els } => {
            starts(cond, out);
            starts(then, out);
            if let Some(e) = els {
                starts(e, out);
            }
        },
        EExpr::While { cond, body } => {
            starts(cond, out);
            starts(body, out);
        },
        EExpr::Binary { left, right, .. } => {
            starts(left, out);
            starts(right, out);
        },
        EExpr::Unary { right, .. } => starts(right, out),
        EExpr::Call { callee, args } => {
            starts(callee, out);
            for a in args {
                starts(a, out);
            }
        },
    }
}

#[test]
fn offsets_never_go_back() {
    let src = "fun main() -> i64 { var a = (1 + 2) * f(3, -4) \n while (a < 10) { a = a + 1 } \n if (!b) { a } else g(a)(a) }";
    let m = parse(src);
    let mut all = Vec::new();
    starts(m.functions[0].body.as_ref().unwrap(), &mut all);
    assert_eq!(all[0], 18);
    assert_eq!(all[1], 24);
    assert!(all.len() > 20);
    for w in all.windows(2) {
        assert!(w[0] <= w[1], "{:?}", all);
    }
}

#[test]
fn a_missing_token_is_reported() {
    let e = errors("fun main( { }");
    assert_eq!(e.len(), 1);
    assert_eq!(e[0].code(), 100);
    assert_eq!(e[0].start, 10);
    assert!(matches!(
        e[0].kind,
        ErrorKind::E100 { expected: TKind::Identifier, found: TKind::LeftBrace }
    ));
    let e = errors("fun main() { 1");
    assert_eq!(e.len(), 1);
    assert!(matches!(
        e[0].kind,
        ErrorKind::E100 { expected: TKind::RightBrace, found: TKind::Error }
    ));
    assert_eq!(e[0].start, 14);
    let e = errors("fun 5() { }");
    assert!(matches!(e[0].kind, ErrorKind::E100 { expected: TKind::Identifier, found: TKind::Int }));
    assert_eq!(e[0].start, 4);
    let e = errors("fun f(a i64) { }");
    assert!(matches!(e[0].kind, ErrorKind::E100 { expected: TKind::Colon, found: TKind::Identifier }));
    let e = errors("fun f() { if a 1 }");
    assert!(matches!(e[0].kind, ErrorKind::E100 { expected: TKind::LeftParen, found: TKind::Identifier }));
    let e = errors("fun f() { var = 1 }");
    assert!(matches!(e[0].kind, ErrorKind::E100 { expected: TKind::Identifier, found: TKind::Equal }));
}

#[test]
fn a_missing_expression_is_reported() {
    let e = errors("fun a() { 1 + }");
    assert_eq!(e.len(), 1);
    assert_eq!(e[0].code(), 101);
    assert_eq!(e[0].start, 14);
    let e = errors("fun a() { f(,) }");
    assert_eq!(e[0].code(), 101);
    assert_eq!(e[0].start, 12);
    let e = errors("fun a()");
    assert_eq!(e[0].code(), 101);
    assert_eq!(e[0].start, 7);
}

#[test]
fn a_number_that_cannot_be_held_is_reported() {
    let e = errors("fun a() { 9223372036854775808 }");
    assert_eq!(e.len(), 1);
    assert_eq!(e[0].code(), 101);
    assert_eq!(e[0].start, 10);
    let e = errors("fun a() { 5i64 }");
    assert_eq!(e[0].code(), 101);
}

#[test]
fn what_is_no_declaration_is_reported() {
    let e = errors("var x = 1");
    assert_eq!(e.len(), 1);
    assert_eq!(e[0].code(), 102);
    assert_eq!(e[0].start, 4);
    let e = errors("extern class A { }");
    assert_eq!(e.len(), 1);
    assert_eq!(e[0].code(), 102);
    let e = errors("class A { 1 }");
    assert_eq!(e.len(), 1);
    assert_eq!(e[0].code(), 102);
    let e = errors("class A { static val x: i64 }");
    assert_eq!(e[0].code(), 102);
}

#[test]
fn reading_goes_on_at_the_next_declaration() {
    let e = errors("fun a( { } fun b() { 1 } class C { } fun c() { + }");
    assert_eq!(e.len(), 2);
    assert_eq!(e[0].code(), 100);
    assert_eq!(e[0].start, 7);
    assert_eq!(e[1].code(), 101);
    assert_eq!(e[1].start, 47);
    let e = errors("1 2 3 fun ok() { } 4 class D { }");
    assert_eq!(e.len(), 2);
    assert_eq!(e[0].code(), 102);
    assert_eq!(e[1].code(), 102);
}

#[test]
fn an_error_token_ends_the_module() {
    let m = parse("fun a() { 1 } # fun b() { 2 }");
    assert_eq!(m.functions.len(), 1);
}
