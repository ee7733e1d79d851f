use yacari::compile_source;
use yacari::compiler::ir::ClassContent;
use yacari::compiler::ir::ClassRef;
use yacari::compiler::ir::Constant;
use yacari::compiler::ir::Expr;
use yacari::compiler::ir::FuncRef;
use yacari::compiler::ir::IExpr;
use yacari::compiler::ir::Module;
use yacari::compiler::ir::Type;
use yacari::compiler::module::compile_module;
use yacari::compiler::module::ModuleCompiler;
use yacari::compiler::Compiler;
use yacari::error::Error;
use yacari::error::ErrorKind;
use yacari::lexer::tokenize;
use yacari::parser::Parser;
use yacari::smol_str::SmolStr;

fn module(src: &str) -> Module {
    match compile_source(src) {
        Ok(m) => m,
        Err(errors) => panic!("{} errors, first E{} at {}", errors.len(), errors[0].code(), errors[0].start),
    }
}

fn errors(src: &str) -> Vec<Error> {
    match compile_source(src) {
        Ok(_) => panic!("compiled"),
        Err(errors) => errors,
    }
}

fn codes(src: &str) -> Vec<(u16, usize)> {
    errors(src).iter().map(|e| (e.code(), e.start)).collect()
}

#[test]
fn an_unknown_type_is_reported() {
    let e = errors("fun f(a: foo) { }");
    assert_eq!(e.len(), 1);
    assert_eq!(e[0].start, 9);
    match &e[0].kind {
        ErrorKind::E200(name) => assert_eq!(name.as_str(), "foo"),
        _ => panic!(),
    }
    assert_eq!(codes("fun f() -> nothing { }"), vec![(200, 11)]);
    assert_eq!(codes("class A { val x: B }"), vec![(200, 17)]);
    assert_eq!(codes("class A { fun m(a: B) { } }"), vec![(200, 19)]);
}

#[test]
fn a_name_that_is_declared_twice_is_reported_once() {
    let e = errors("fun foo() { } fun foo() { }");
    assert_eq!(e.len(), 1);
    assert_eq!(e[0].start, 18);
    match &e[0].kind {
        ErrorKind::E201(name) => assert_eq!(name.as_str(), "foo"),
        _ => panic!(),
    }
    assert_eq!(codes("fun foo() { } fun bar() { } fun foo() -> i64 { 1 }"), vec![(201, 32)]);
    assert_eq!(codes("class foo { } class foo { }"), vec![(201, 20)]);
    assert_eq!(codes("fun foo() { } class foo { }"), vec![(201, 4)]);
    assert_eq!(codes("fun foo() { x } fun foo() { y }"), vec![(201, 20), (503, 12)]);
    assert_eq!(
        codes("fun foo() { } fun foo() { } fun foo() { }"),
        vec![(201, 18), (201, 32)]
    );
}

#[test]
fn sides_of_different_type_are_reported() {
    let e = errors("fun main() -> i64 { 5 + true }");
    assert_eq!(e.len(), 1);
    assert_eq!(e[0].start, 22);
    assert!(matches!(e[0].kind, ErrorKind::E500 { left: Type::I64, right: Type::Bool }));
    assert_eq!(codes("fun main() { 1.5 < 2 }"), vec![(500, 17)]);
    assert_eq!(codes("fun main() { var a = 1 \n a = true }"), vec![(500, 27)]);
}

#[test]
fn an_operator_on_the_wrong_type_is_reported() {
    let e = errors("fun main() { true + false }");
    assert_eq!(e.len(), 1);
    assert_eq!(e[0].start, 18);
    match &e[0].kind {
        ErrorKind::E501 { op, ty } => {
            assert_eq!(op.as_str(), "+");
            assert_eq!(*ty, Type::Bool);
        },
        _ => panic!(),
    }
    assert_eq!(codes("fun f() { } fun main() { f == f }"), vec![(501, 27)]);
    assert_eq!(codes("fun main() { -1 }"), vec![(501, 13)]);
    assert_eq!(codes("fun main() { !true }"), vec![(501, 13)]);
    assert_eq!(codes("fun f() { } fun main() { f() * f() }"), vec![(501, 29)]);
    assert_eq!(codes("fun f() { } fun main() { f() < f() }"), vec![(501, 29)]);
}

#[test]
fn a_condition_that_is_no_truth_value_is_reported() {
    assert_eq!(codes("fun main() { if (1) 2 }"), vec![(502, 17)]);
    assert_eq!(codes("fun main() { while (1.5) { } }"), vec![(502, 20)]);
    let e = errors("fun main() { if (1 + 2) 2 else 3 }");
    assert!(matches!(e[0].kind, ErrorKind::E502));
}

#[test]
fn an_unknown_name_is_reported() {
    let e = errors("fun main() { x }");
    assert_eq!(e.len(), 1);
    assert_eq!(e[0].start, 13);
    match &e[0].kind {
        ErrorKind::E503 { name } => assert_eq!(name.as_str(), "x"),
        _ => panic!(),
    }
    assert_eq!(codes("fun main() { { var a = 1 } \n a }"), vec![(503, 29)]);
    assert_eq!(codes("fun f(a: i64) { } fun main() { a }"), vec![(503, 31)]);
}

#[test]
fn a_variable_of_no_type_is_reported() {
    let e = errors("fun main() { var x = { } }");
    assert_eq!(e.len(), 1);
    assert_eq!(e[0].start, 17);
    assert!(matches!(e[0].kind, ErrorKind::E504 { ty: Type::Void }));
    assert_eq!(codes("fun main() { val s = \"text\" }"), vec![(504, 17)]);
    assert_eq!(codes("fun main() { val w = while (true) { } }"), vec![(504, 17)]);
}

#[test]
fn an_assignment_to_what_is_no_variable_is_reported() {
    let e = errors("fun main() { 1 = 2 }");
    assert_eq!(e.len(), 1);
    assert_eq!(e[0].start, 15);
    assert!(matches!(e[0].kind, ErrorKind::E505));
    assert_eq!(codes("fun f() -> i64 { 1 } fun main() { f() = 2 }"), vec![(505, 38)]);
}

#[test]
fn a_call_of_what_is_no_function_is_reported() {
    let e = errors("fun main() { 1(2) }");
    assert_eq!(e.len(), 1);
    assert_eq!(e[0].start, 13);
    assert!(matches!(e[0].kind, ErrorKind::E506 { ty: Type::I64 }));
    assert_eq!(codes("fun main() { var a = true \n a(x) }"), vec![(506, 28)]);
}

#[test]
fn a_wrong_number_of_arguments_is_reported() {
    let e = errors("fun f(a: i64) { } fun main() { f() }");
    assert_eq!(e.len(), 1);
    assert_eq!(e[0].start, 31);
    assert!(matches!(e[0].kind, ErrorKind::E507 { expected: 1, found: 0 }));
    let e = errors("fun f(a: i64) { } fun main() { f(1, 2, 3) }");
    assert!(matches!(e[0].kind, ErrorKind::E507 { expected: 1, found: 3 }));
    assert_eq!(e.len(), 1);
}

#[test]
fn an_argument_of_the_wrong_type_is_reported() {
    let e = errors("fun f(a: i64) { } fun main() { f(true) }");
    assert_eq!(e.len(), 1);
    assert_eq!(e[0].start, 31);
    assert!(matches!(
        e[0].kind,
        ErrorKind::E508 { expected: Type::I64, found: Type::Bool, pos: 0 }
    ));
    let e = errors("fun f(a: i64, b: bool, c: f64) { } fun main() { f(true, true, 1) }");
    assert_eq!(e.len(), 2);
    assert!(matches!(e[0].kind, ErrorKind::E508 { pos: 0, .. }));
    assert!(matches!(
        e[1].kind,
        ErrorKind::E508 { expected: Type::F64, found: Type::I64, pos: 2 }
    ));
    assert_eq!(
        codes("fun f(a: i64, b: bool) { } fun main() { f(true) }"),
        vec![(507, 40), (508, 40)]
    );
}

#[test]
fn what_failed_is_not_reported_again() {
    assert_eq!(codes("fun main() { x + y }"), vec![(503, 13), (503, 17)]);
    assert_eq!(codes("fun main() { x * y - z }"), vec![(503, 13), (503, 17), (503, 21)]);
    assert_eq!(codes("fun main() { x < y }"), vec![(503, 13), (503, 17)]);
    assert_eq!(codes("fun main() { var a = x }"), vec![(503, 21)]);
    assert_eq!(codes("fun main() { x + 1 }"), vec![(503, 13), (500, 15)]);
}

#[test]
fn failures_come_in_the_order_of_the_source() {
    assert_eq!(
        codes("fun a() { x } fun b(p: q) { } fun c() { if (1) y }"),
        vec![(200, 23), (503, 10), (502, 44), (503, 47)]
    );
}

fn main_body(m: &Module) -> &Expr {
    for f in m.funcs.iter() {
        if f.name.as_str() == "main" {
            return &f.body;
        }
    }
    panic!("no main")
}

fn only(e: &Expr) -> &Expr {
    match e.inner() {
        IExpr::Block(exprs) => {
            assert_eq!(exprs.len(), 1);
            &exprs[0]
        },
        _ => panic!("no block"),
    }
}

#[test]
fn literals_become_constants() {
    let m = module("fun main() { 5 }");
    assert!(matches!(only(main_body(&m)).inner(), IExpr::Constant(Constant::Int(5))));
    assert_eq!(only(main_body(&m)).typ(), Type::I64);
    let m = module("fun main() { true }");
    assert!(matches!(only(main_body(&m)).inner(), IExpr::Constant(Constant::Bool(true))));
    assert_eq!(only(main_body(&m)).typ(), Type::Bool);
    let m = module("fun main() { 35.42 }");
    match only(main_body(&m)).inner() {
        IExpr::Constant(Constant::Float(text)) => assert_eq!(text.as_str(), "35.42"),
        _ => panic!(),
    }
    assert_eq!(only(main_body(&m)).typ(), Type::F64);
    let m = module("fun main() { \"hi\" }");
    match only(main_body(&m)).inner() {
        IExpr::Constant(Constant::String(text)) => assert_eq!(text.as_str(), "\"hi\""),
        _ => panic!(),
    }
    assert_eq!(only(main_body(&m)).typ(), Type::Void);
}

#[test]
fn types_follow_the_form() {
    let m = module("fun main() { }");
    assert_eq!(main_body(&m).typ(), Type::Void);
    assert!(matches!(main_body(&m).inner(), IExpr::Block(v) if v.is_empty()));
    let m = module("fun main() { 1 < 2 }");
    assert_eq!(main_body(&m).typ(), Type::Bool);
    let m = module("fun main() { 1.5 + 2.5 }");
    assert_eq!(main_body(&m).typ(), Type::F64);
    let m = module("fun main() { while (true) { 1 } }");
    assert_eq!(main_body(&m).typ(), Type::Void);
    let m = module("fun main() { var a = 1 }");
    assert_eq!(main_body(&m).typ(), Type::I64);
    assert!(matches!(only(main_body(&m)).inner(), IExpr::Assign { .. }));
}

#[test]
fn an_if_yields_a_value_where_both_branches_agree() {
    let phi = |src: &str| -> (bool, Type) {
        let m = module(src);
        let e = only(main_body(&m));
        match e.inner() {
            IExpr::If { phi, .. } => (*phi, e.typ()),
            _ => panic!(),
        }
    };
    assert_eq!(phi("fun main() { if (true) 1 else 2 }"), (true, Type::I64));
    assert_eq!(phi("fun main() { if (true) 1 }"), (false, Type::Void));
    assert_eq!(phi("fun main() { if (true) 1.5 else 2 }"), (false, Type::Void));
    assert_eq!(phi("fun main() { if (true) { } else { } }"), (false, Type::Void));
    assert_eq!(phi("fun main() { if (true) true else false }"), (true, Type::Bool));
    let m = module("fun main() { if (true) 1 }");
    match only(main_body(&m)).inner() {
        IExpr::If { els, .. } => assert!(matches!(els.inner(), IExpr::Constant(Constant::Int(0)))),
        _ => panic!(),
    }
}

#[test]
fn variables_are_numbered_in_the_order_of_their_declaration() {
    let m = module("fun main() { var a = 1 \n val b = true \n { var c = 2.5 \n c } \n a }");
    let f = &m.funcs[0];
    assert_eq!(f.locals.len(), 3);
    for (i, name, ty, mutable) in [(0, "a", Type::I64, true), (1, "b", Type::Bool, false), (2, "c", Type::F64, true)] {
        assert_eq!(f.locals[i].index, i);
        assert_eq!(f.locals[i].name.as_str(), name);
        assert_eq!(f.locals[i].ty, ty);
        assert_eq!(f.locals[i].mutable, mutable);
    }
    match f.body.inner() {
        IExpr::Block(exprs) => {
            assert_eq!(exprs.len(), 4);
            assert!(matches!(exprs[3].inner(), IExpr::Variable { index: 0, typ: Type::I64 }));
            match exprs[0].inner() {
                IExpr::Assign { store, value } => {
                    assert!(store.assignable());
                    assert!(!value.assignable());
                    assert!(matches!(store.inner(), IExpr::Variable { index: 0, typ: Type::I64 }));
                },
                _ => panic!(),
            }
        },
        _ => panic!(),
    }
}

#[test]
fn an_inner_variable_hides_the_outer_one() {
    let m = module("fun main() { var a = 1 \n { var a = true \n a } \n a }");
    match m.funcs[0].body.inner() {
        IExpr::Block(exprs) => {
            match exprs[1].inner() {
                IExpr::Block(inner) => {
                    assert!(matches!(inner[1].inner(), IExpr::Variable { index: 1, typ: Type::Bool }));
                },
                _ => panic!(),
            }
            assert!(matches!(exprs[2].inner(), IExpr::Variable { index: 0, typ: Type::I64 }));
        },
        _ => panic!(),
    }
}

#[test]
fn parameters_and_functions_are_found_by_name() {
    let m = module("fun add(a: i64, b: i64) -> i64 { a + b } fun main() -> i64 { add(400, 22) }");
    assert_eq!(m.funcs.len(), 2);
    let add = &m.funcs[0];
    assert_eq!(add.name.as_str(), "add");
    assert_eq!(add.params.len(), 2);
    assert_eq!(add.params[1].index, 1);
    assert_eq!(add.params[1].name.as_str(), "b");
    assert!(!add.params[1].mutable);
    assert_eq!(add.ret_type, Type::I64);
    match only(&add.body).inner() {
        IExpr::Binary { left, right, .. } => {
            assert!(matches!(left.inner(), IExpr::Variable { index: 0, typ: Type::I64 }));
            assert!(matches!(right.inner(), IExpr::Variable { index: 1, typ: Type::I64 }));
        },
        _ => panic!(),
    }
    let call = only(main_body(&m));
    assert_eq!(call.typ(), Type::I64);
    match call.inner() {
        IExpr::Call { callee, args } => {
            assert_eq!(args.len(), 2);
            assert_eq!(callee.typ(), Type::Function(FuncRef { module: 0, index: 0 }));
            assert_eq!(callee.typ().into_fn(), FuncRef { module: 0, index: 0 });
            assert!(matches!(
                callee.inner(),
                IExpr::Constant(Constant::Function(FuncRef { module: 0, index: 0 }))
            ));
        },
        _ => panic!(),
    }
    assert!(m.funcs[1].ast.body.is_some());
    assert_eq!(FuncRef { module: 0, index: 1 }.resolve(&m).name.as_str(), "main");
    assert_eq!(FuncRef::new_last(0, &m), FuncRef { module: 0, index: 1 });
}

#[test]
fn a_function_from_outside_keeps_its_placeholder_body() {
    let m = module("extern fun hello() -> i64 \n fun main() -> i64 { hello() }");
    assert!(m.funcs[0].ast.body.is_none());
    assert!(matches!(m.funcs[0].body.inner(), IExpr::Poison));
    assert_eq!(m.funcs[0].body.typ(), Type::Poison);
}

#[test]
fn a_class_holds_its_members_first() {
    let m = module(
        "class P { val x: i64 var y: bool fun get() -> i64 { 1 } static fun make() -> i64 { 2 } } \
         class Q { val p: P } fun main() { }",
    );
    assert_eq!(m.classes.len(), 2);
    assert_eq!(m.classes[0].name.as_str(), "P");
    let names: Vec<String> = m.funcs.iter().map(|f| f.name.as_str()).collect();
    assert_eq!(names, vec!["main", "get", "make"]);
    let content = m.classes[0].content.values();
    assert_eq!(content.len(), 4);
    match &content[0] {
        ClassContent::Member(v) => {
            assert_eq!((v.name.as_str(), v.index, v.mutable, v.ty), ("x".to_string(), 0, false, Type::I64));
        },
        _ => panic!(),
    }
    match &content[1] {
        ClassContent::Member(v) => {
            assert_eq!((v.name.as_str(), v.index, v.mutable, v.ty), ("y".to_string(), 1, true, Type::Bool));
        },
        _ => panic!(),
    }
    assert!(matches!(content[2], ClassContent::Method(FuncRef { module: 0, index: 1 })));
    assert!(matches!(content[3], ClassContent::Function(FuncRef { module: 0, index: 2 })));
    match &m.classes[1].content.values()[0] {
        ClassContent::Member(v) => assert_eq!(v.ty, Type::Class(ClassRef { module: 0, index: 0 })),
        _ => panic!(),
    }
    assert_eq!(ClassRef { module: 0, index: 1 }.resolve(&m).name.as_str(), "Q");
    assert_eq!(m.classes[0].ast.methods.len(), 0);
    assert_eq!(m.classes[0].ast.members.len(), 2);
    assert_eq!(m.ast.functions.len(), 0);
    assert_eq!(m.ast.classes.len(), 0);
}

#[test]
fn a_later_entry_of_the_same_name_takes_the_place_of_the_earlier() {
    let m = module("class P { val a: i64 val b: i64 fun a() { } }");
    let content = m.classes[0].content.values();
    assert_eq!(content.len(), 2);
    assert!(matches!(content[0], ClassContent::Method(_)));
    assert!(matches!(content[1], ClassContent::Member(_)));
}

#[test]
fn type_predicates() {
    assert!(Type::I64.is_int());
    assert!(Type::Poison.is_int());
    assert!(!Type::F64.is_int());
    assert!(!Type::Bool.is_int());
    for t in [Type::I64, Type::F64, Type::Poison] {
        assert!(t.allow_math());
    }
    for t in [Type::Bool, Type::Void, Type::Function(FuncRef { module: 0, index: 0 })] {
        assert!(!t.allow_math());
    }
    for t in [Type::Bool, Type::I64, Type::F64, Type::Poison] {
        assert!(t.allow_logic());
    }
    for t in [Type::Void, Type::Class(ClassRef { module: 0, index: 0 })] {
        assert!(!t.allow_logic());
    }
    assert!(!Type::Void.allow_assignment());
    for t in [Type::Poison, Type::Bool, Type::I64, Type::F64] {
        assert!(t.allow_assignment());
    }
}

#[test]
fn expressions_can_be_built_by_hand() {
    let plus = tokenize("+").remove(0);
    let less = tokenize("<").remove(0);
    assert_eq!(Expr::zero().typ(), Type::I64);
    assert_eq!(Expr::poison().typ(), Type::Poison);
    assert_eq!(Expr::binary(Expr::zero(), plus.clone(), Expr::zero()).typ(), Type::I64);
    assert_eq!(Expr::binary(Expr::zero(), less, Expr::zero()).typ(), Type::Bool);
    assert_eq!(Expr::binary(Expr::poison(), plus, Expr::zero()).typ(), Type::Poison);
    assert_eq!(Expr::constant(Constant::Bool(true)).typ(), Type::Bool);
    assert_eq!(Expr::block(vec![]).typ(), Type::Void);
    assert_eq!(Expr::block(vec![Expr::zero(), Expr::constant(Constant::Bool(true))]).typ(), Type::Bool);
    assert_eq!(Expr::if_(Expr::constant(Constant::Bool(true)), Expr::zero(), Some(Expr::zero())).typ(), Type::I64);
    assert_eq!(Expr::if_(Expr::constant(Constant::Bool(true)), Expr::zero(), None).typ(), Type::Void);
    assert_eq!(Expr::while_(Expr::constant(Constant::Bool(true)), Expr::zero()).typ(), Type::Void);
    assert_eq!(Expr::assign(Expr::zero(), Expr::constant(Constant::Bool(true))).typ(), Type::Bool);
    assert_eq!(Expr::call(Expr::zero(), vec![], Type::F64).typ(), Type::F64);
    assert!(!Expr::zero().assignable());
}

#[test]
fn a_module_is_compiled_pass_by_pass() {
    let ast = Parser::new("class A { val n: i64 } fun main() -> i64 { 1 } fun main() { }")
        .parse(vec![SmolStr::new("m")])
        .ok()
        .unwrap();
    let mut compiler = ModuleCompiler::new(Module::from_ast(ast));
    compiler.declare_classes();
    assert_eq!(compiler.module.classes.len(), 1);
    assert_eq!(compiler.module.funcs.len(), 0);
    compiler.declare_functions();
    assert_eq!(compiler.module.funcs.len(), 1);
    assert_eq!(compiler.errors.len(), 1);
    assert_eq!(compiler.errors[0].code(), 201);
    assert!(matches!(compiler.module.funcs[0].body.inner(), IExpr::Poison));
    compiler.generate_classes();
    assert_eq!(compiler.module.classes[0].content.values().len(), 1);
    compiler.generate_functions();
    assert!(matches!(compiler.module.funcs[0].body.inner(), IExpr::Block(_)));
    assert!(compiler.consume().is_err());
}

#[test]
fn names_are_taken_once() {
    let ast = Parser::new("").parse(vec![]).ok().unwrap();
    let mut m = Module::from_ast(ast);
    assert!(m.try_reserve_name(&SmolStr::new("a"), 3).is_ok());
    assert!(m.try_reserve_name(&SmolStr::new("b"), 4).is_ok());
    match m.try_reserve_name(&SmolStr::new("a"), 5) {
        Err(e) => {
            assert_eq!(e.code(), 201);
            assert_eq!(e.start, 5);
        },
        Ok(_) => panic!(),
    }
}

#[test]
fn several_modules_are_compiled_each_under_its_number() {
    let parse = |src: &str| Parser::new(src).parse(vec![]).ok().unwrap();
    let modules = Compiler::new(vec![parse("fun a() { }"), parse("fun b() { b }")])
        .consume()
        .ok()
        .unwrap();
    assert_eq!(modules.len(), 2);
    assert!(matches!(
        only(&modules[1].funcs[0].body).inner(),
        IExpr::Constant(Constant::Function(FuncRef { module: 1, index: 0 }))
    ));
    let failed = Compiler::new(vec![parse("fun a() { x }"), parse("fun b() { }"), parse("fun c() { y z }")]).consume();
    match failed {
        Err(lists) => {
            assert_eq!(lists.len(), 2);
            assert_eq!(lists[0].len(), 1);
            assert_eq!(lists[1].len(), 2);
        },
        Ok(_) => panic!(),
    }
    let one = compile_module(parse("fun a() -> i64 { 1 }"), 7).ok().unwrap();
    assert_eq!(one.funcs.len(), 1);
}
