use yacari::compile_source;
use yacari::compiler::ir::ClassRef;
use yacari::compiler::ir::FuncRef;
use yacari::compiler::ir::Type;
use yacari::plan_source;
use yacari::vm::function::Cond;
use yacari::vm::function::FloatOp;
use yacari::vm::function::FnTranslator;
use yacari::vm::function::IntOp;
use yacari::vm::function::LowerError;
use yacari::vm::function::Op;
use yacari::vm::function::ValueRef;
use yacari::vm::get_linkage;
use yacari::vm::jit_module;
use yacari::vm::make_fn_sig;
use yacari::vm::typesys::translate_type;
use yacari::vm::typesys::ClifType;
use yacari::vm::FunctionPlan;
use yacari::vm::Linkage;

fn plans(src: &str) -> Vec<FunctionPlan> {
    match plan_source(src) {
        Ok(p) => p,
        Err(e) => panic!("{} errors, first E{}", e.len(), e[0].code()),
    }
}

fn show(ops: &Vec<Op>) -> Vec<String> {
    let v = |r: &ValueRef| format!("{}.{}", r.op, r.result);
    let vs = |rs: &Vec<ValueRef>| rs.iter().map(v).collect::<Vec<_>>().join(",");
    ops.iter()
        .map(|op| match op {
            Op::CreateBlock => "block".to_string(),
            Op::SwitchToBlock { block } => format!("switch {}", block),
            Op::SealBlock { block } => format!("seal {}", block),
            Op::AppendFunctionParams { block } => format!("params {}", block),
            Op::AppendBlockParam { block, ty } => format!("param {} {:?}", block, ty),
            Op::DeclareVar { var, ty } => format!("declare {} {:?}", var, ty),
            Op::DefVar { var, value } => format!("def {} {}", var, v(value)),
            Op::UseVar { var } => format!("use {}", var),
            Op::Bconst { value } => format!("bconst {}", value),
            Op::Iconst { value } => format!("iconst {}", value),
            Op::F64const { text } => format!("f64const {}", text.as_str()),
            Op::Int { op, left, right } => format!("{:?} {} {}", op, v(left), v(right)),
            Op::Icmp { cond, left, right } => format!("icmp {:?} {} {}", cond, v(left), v(right)),
            Op::Float { op, left, right } => format!("{:?} {} {}", op, v(left), v(right)),
            Op::Fcmp { cond, left, right } => format!("fcmp {:?} {} {}", cond, v(left), v(right)),
            Op::Brz { cond, block } => format!("brz {} {}", v(cond), block),
            Op::Jump { block, args } => format!("jump {} [{}]", block, vs(args)),
            Op::Call { func, args, results } => format!("call {} [{}] {}", func, vs(args), results),
            Op::Return { values } => format!("return [{}]", vs(values)),
        })
        .collect()
}

fn body(src: &str) -> Vec<String> {
    let all = plans(src);
    let last = all.last().unwrap();
    match last.body.as_ref().unwrap() {
        Ok(ops) => show(ops),
        Err(e) => panic!("{:?}", e),
    }
}

fn failure(src: &str) -> LowerError {
    let all = plans(src);
    match all.last().unwrap().body.as_ref().unwrap() {
        Ok(_) => panic!("lowered"),
        Err(e) => *e,
    }
}

#[test]
fn an_addition_is_lowered() {
    let all = plans("fun main() -> i64 { 5 + 37 }");
    assert_eq!(all.len(), 1);
    assert_eq!(all[0].name.as_str(), "main");
    assert_eq!(all[0].linkage, Linkage::Export);
    assert_eq!(all[0].abi.params, vec![]);
    assert_eq!(all[0].abi.returns, vec![ClifType::I64]);
    assert_eq!(
        body("fun main() -> i64 { 5 + 37 }"),
        vec![
            "block",
            "switch 0",
            "params 0",
            "seal 0",
            "iconst 5",
            "iconst 37",
            "Iadd 4.0 5.0",
            "return [6.0]",
        ]
    );
}

#[test]
fn operators_become_instructions() {
    let op = |src: &str| -> String { body(&format!("fun main() {{ {} }}", src))[6].clone() };
    assert_eq!(op("1 - 2"), "Isub 4.0 5.0");
    assert_eq!(op("1 * 2"), "Imul 4.0 5.0");
    assert_eq!(op("1 / 2"), "Udiv 4.0 5.0");
    assert_eq!(op("1 == 2"), "icmp Equal 4.0 5.0");
    assert_eq!(op("1 != 2"), "icmp NotEqual 4.0 5.0");
    assert_eq!(op("1 > 2"), "icmp Greater 4.0 5.0");
    assert_eq!(op("1 >= 2"), "icmp GreaterEqual 4.0 5.0");
    assert_eq!(op("1 < 2"), "icmp Less 4.0 5.0");
    assert_eq!(op("1 <= 2"), "icmp LessEqual 4.0 5.0");
    assert_eq!(op("1.5 + 2.5"), "Fadd 4.0 5.0");
    assert_eq!(op("1.5 - 2.5"), "Fsub 4.0 5.0");
    assert_eq!(op("1.5 * 2.5"), "Fmul 4.0 5.0");
    assert_eq!(op("1.5 / 2.5"), "Fdiv 4.0 5.0");
    assert_eq!(op("1.5 < 2.5"), "fcmp Less 4.0 5.0");
    assert_eq!(op("1.5 == 2.5"), "fcmp Equal 4.0 5.0");
    assert_eq!(
        body("fun main() { 1.5 true }")[4..6],
        ["f64const 1.5".to_string(), "bconst true".to_string()]
    );
    assert_eq!(IntOp::Iadd, IntOp::Iadd);
    assert_ne!(FloatOp::Fadd, FloatOp::Fsub);
    assert_ne!(Cond::Less, Cond::LessEqual);
}

#[test]
fn a_block_yields_its_last_value() {
    assert_eq!(
        body("fun main() -> i64 { 5 + 5 \n 2 - 2 \n 1 }"),
        vec![
            "block",
            "switch 0",
            "params 0",
            "seal 0",
            "iconst 5",
            "iconst 5",
            "Iadd 4.0 5.0",
            "iconst 2",
            "iconst 2",
            "Isub 7.0 8.0",
            "iconst 1",
            "return [10.0]",
        ]
    );
    assert_eq!(body("fun main() { }"), vec!["block", "switch 0", "params 0", "seal 0", "return []"]);
}

#[test]
fn an_if_with_a_value_hands_it_to_the_block_behind() {
    assert_eq!(
        body("fun main() -> i64 { if (true) 35 else 0 }"),
        vec![
            "block",
            "switch 0",
            "params 0",
            "seal 0",
            "bconst true",
            "block",
            "block",
            "block",
            "param 7 I64",
            "brz 4.0 6",
            "jump 5 []",
            "switch 5",
            "seal 5",
            "iconst 35",
            "jump 7 [13.0]",
            "switch 6",
            "seal 6",
            "iconst 0",
            "jump 7 [17.0]",
            "switch 7",
            "seal 7",
            "return [8.0]",
        ]
    );
}

#[test]
fn an_if_without_a_value_hands_over_nothing() {
    assert_eq!(
        body("fun main() { if (true) 35 }"),
        vec![
            "block",
            "switch 0",
            "params 0",
            "seal 0",
            "bconst true",
            "block",
            "block",
            "block",
            "brz 4.0 6",
            "jump 5 []",
            "switch 5",
            "seal 5",
            "iconst 35",
            "jump 7 []",
            "switch 6",
            "seal 6",
            "iconst 0",
            "jump 7 []",
            "switch 7",
            "seal 7",
            "return []",
        ]
    );
}

#[test]
fn a_loop_goes_back_to_its_head() {
    assert_eq!(
        body("fun main() -> i64 { var a = 3 \n while (a < 10) { a = a + 1 } \n a }"),
        vec![
            "block",
            "switch 0",
            "params 0",
            "seal 0",
            "declare 0 I64",
            "iconst 3",
            "def 0 5.0",
            "block",
            "block",
            "block",
            "jump 7 []",
            "switch 7",
            "use 0",
            "iconst 10",
            "icmp Less 12.0 13.0",
            "brz 14.0 9",
            "jump 8 []",
            "switch 8",
            "seal 8",
            "use 0",
            "iconst 1",
            "Iadd 19.0 20.0",
            "def 0 21.0",
            "jump 7 []",
            "switch 9",
            "seal 7",
            "seal 9",
            "iconst 0",
            "use 0",
            "return [28.0]",
        ]
    );
}

#[test]
fn parameters_are_variables_that_hold_what_was_handed_over() {
    let all = plans("fun add(a: i64, b: i64) -> i64 { a + b }  fun main() -> i64 { add(400, 22) }");
    assert_eq!(all[0].abi.params, vec![ClifType::I64, ClifType::I64]);
    assert_eq!(all[0].abi.returns, vec![ClifType::I64]);
    assert_eq!(
        show(all[0].body.as_ref().unwrap().as_ref().ok().unwrap()),
        vec![
            "block",
            "switch 0",
            "params 0",
            "seal 0",
            "declare 0 I64",
            "def 0 2.0",
            "declare 1 I64",
            "def 1 2.1",
            "use 0",
            "use 1",
            "Iadd 8.0 9.0",
            "return [10.0]",
        ]
    );
    assert_eq!(
        show(all[1].body.as_ref().unwrap().as_ref().ok().unwrap()),
        vec![
            "block",
            "switch 0",
            "params 0",
            "seal 0",
            "iconst 0",
            "iconst 400",
            "iconst 22",
            "call 0 [5.0,6.0] 1",
            "return [7.0]",
        ]
    );
}

#[test]
fn a_function_from_outside_is_imported() {
    let all = plans("extern fun hello() -> i64 \n fun main() -> i64 { hello() }");
    assert_eq!(all[0].name.as_str(), "hello");
    assert_eq!(all[0].linkage, Linkage::Import);
    assert!(all[0].body.is_none());
    assert_eq!(all[0].abi.returns, vec![ClifType::I64]);
    assert_eq!(all[1].linkage, Linkage::Export);
    assert_eq!(
        show(all[1].body.as_ref().unwrap().as_ref().ok().unwrap())[4..],
        ["iconst 0".to_string(), "call 0 [] 1".to_string(), "return [5.0]".to_string()]
    );
}

#[test]
fn what_the_backend_cannot_do_is_said() {
    assert_eq!(failure("fun main() { \"text\" }"), LowerError::Text);
    assert_eq!(failure("fun main() { true and false }"), LowerError::UnknownOperator);
    assert_eq!(failure("fun main() { 1 is 2 }"), LowerError::UnknownOperator);
}

#[test]
fn a_variable_beside_a_parameter_is_declared_anew() {
    let all = plans("fun f(a: i64) -> i64 { var b = a \n b }");
    let ops = show(all[0].body.as_ref().unwrap().as_ref().ok().unwrap());
    assert_eq!(ops[4..8], ["declare 0 I64", "def 0 2.0", "declare 0 I64", "use 0"].map(String::from));
}

#[test]
fn types_take_slots() {
    let m = compile_source(
        "class P { val x: i64 var y: bool fun get() -> i64 { 1 } val late: f64 } \
         class Q { val p: P val f: f64 } class R { val r: R val n: i64 } \
         class S { val a: i64 val b: i64 fun a() { } } fun main(q: Q, b: bool) -> P { }",
    )
    .ok()
    .unwrap();
    assert_eq!(translate_type(&Type::Void, &m, 0), vec![]);
    assert_eq!(translate_type(&Type::Poison, &m, 0), vec![]);
    assert_eq!(translate_type(&Type::Bool, &m, 0), vec![ClifType::B1]);
    assert_eq!(translate_type(&Type::I64, &m, 0), vec![ClifType::I64]);
    assert_eq!(translate_type(&Type::F64, &m, 0), vec![ClifType::F64]);
    assert_eq!(translate_type(&Type::Function(FuncRef { module: 0, index: 0 }), &m, 0), vec![ClifType::I64]);
    let class = |index| Type::Class(ClassRef { module: 0, index });
    assert_eq!(translate_type(&class(0), &m, 0), vec![ClifType::I64, ClifType::B1, ClifType::F64]);
    assert_eq!(
        translate_type(&class(1), &m, 0),
        vec![ClifType::I64, ClifType::B1, ClifType::F64, ClifType::F64]
    );
    assert_eq!(
        translate_type(&class(2), &m, 0),
        vec![ClifType::I64, ClifType::I64, ClifType::I64, ClifType::I64]
    );
    assert_eq!(translate_type(&class(3), &m, 0), vec![]);
    assert_eq!(translate_type(&class(9), &m, 0), vec![]);
    assert_eq!(translate_type(&class(0), &m, 1), vec![]);
    let main = &m.funcs[0];
    assert_eq!(main.name.as_str(), "main");
    let abi = make_fn_sig(&m, 0, main);
    assert_eq!(
        abi.params,
        vec![ClifType::I64, ClifType::B1, ClifType::F64, ClifType::F64, ClifType::B1]
    );
    assert_eq!(abi.returns, vec![ClifType::I64, ClifType::B1, ClifType::F64]);
    assert_eq!(get_linkage(main), Linkage::Export);
    assert_eq!(jit_module(&m, 0).len(), m.funcs.len());
}

#[test]
fn a_translator_writes_one_function() {
    let m = compile_source("fun main() -> bool { 1 < 2 }").ok().unwrap();
    let mut t = FnTranslator::new(&m.funcs[0], &m, 0);
    let values = t.trans_expr(&m.funcs[0].body).ok().unwrap();
    assert_eq!(values, vec![ValueRef { op: 2, result: 0 }]);
    assert_eq!(show(&t.ops), vec!["iconst 1", "iconst 2", "icmp Less 0.0 1.0"]);
    let ops = FnTranslator::new(&m.funcs[0], &m, 0).build().ok().unwrap();
    assert_eq!(ops.len(), 8);
}
