//! Whole programs: read, compile, and run the typed module with a small
//! evaluator that follows the rules of the backend.

use yacari::compile_files;
use yacari::compile_source;
use yacari::compiler::ir::Constant;
use yacari::compiler::ir::Expr;
use yacari::compiler::ir::IExpr;
use yacari::compiler::ir::Module;
use yacari::compiler::ir::Type;
use yacari::filesystem::File;
use yacari::lexer::TKind;
use yacari::smol_str::SmolStr;

#[derive(Clone, Debug, PartialEq)]
enum Value {
    Unit,
    Bool(bool),
    Int(i64),
    Float(f64),
}

struct Machine<'m> {
    module: &'m Module,
    symbols: Vec<(String, i64)>,
}

impl<'m> Machine<'m> {
    fn call(&self, index: usize, args: Vec<Value>) -> Value {
        let func = &self.module.funcs[index];
        if func.ast.body.is_none() {
            let name = func.name.as_str();
            for (symbol, value) in &self.symbols {
                if *symbol == name {
                    return Value::Int(*value);
                }
            }
            panic!("no symbol {}", name);
        }
        let mut frame = args;
        self.eval(&mut frame, &func.body)
    }

    fn store(frame: &mut Vec<Value>, index: usize, value: Value) {
        while frame.len() <= index {
            frame.push(Value::Unit);
        }
        frame[index] = value;
    }

    fn eval(&self, frame: &mut Vec<Value>, e: &Expr) -> Value {
        match e.inner() {
            IExpr::Poison => panic!("poison"),
            IExpr::Constant(c) => match c {
                Constant::Bool(b) => Value::Bool(*b),
                Constant::Int(i) => Value::Int(*i),
                Constant::Float(text) => Value::Float(text.as_str().parse().unwrap()),
                Constant::Function(_) => Value::Int(0),
                _ => panic!("unsupported constant"),
            },
            IExpr::Binary { left, op, right } => {
                let l = self.eval(frame, left);
                let r = self.eval(frame, right);
                match (l, r) {
                    (Value::Int(a), Value::Int(b)) => match op.kind {
                        TKind::Plus => Value::Int(a.wrapping_add(b)),
                        TKind::Minus => Value::Int(a.wrapping_sub(b)),
                        TKind::Star => Value::Int(a.wrapping_mul(b)),
                        TKind::Slash => Value::Int(((a as u64) / (b as u64)) as i64),
                        TKind::EqualEqual => Value::Bool(a == b),
                        TKind::BangEqual => Value::Bool(a != b),
                        TKind::Greater => Value::Bool(a > b),
                        TKind::GreaterEqual => Value::Bool(a >= b),
                        TKind::Less => Value::Bool(a < b),
                        TKind::LessEqual => Value::Bool(a <= b),
                        _ => panic!("unknown operator"),
                    },
                    (Value::Float(a), Value::Float(b)) => match op.kind {
                        TKind::Plus => Value::Float(a + b),
                        TKind::Minus => Value::Float(a - b),
                        TKind::Star => Value::Float(a * b),
                        TKind::Slash => Value::Float(a / b),
                        TKind::EqualEqual => Value::Bool(a == b),
                        TKind::BangEqual => Value::Bool(a != b),
                        TKind::Greater => Value::Bool(a > b),
                        TKind::GreaterEqual => Value::Bool(a >= b),
                        TKind::Less => Value::Bool(a < b),
                        TKind::LessEqual => Value::Bool(a <= b),
                        _ => panic!("unknown operator"),
                    },
                    _ => panic!("operands"),
                }
            },
            IExpr::Block(exprs) => {
                let mut last = Value::Unit;
                for x in exprs {
                    last = self.eval(frame, x);
                }
                last
            },
            IExpr::If { cond, then, els, phi } => {
                let taken = self.eval(frame, cond) != Value::Bool(false);
                let value = if taken {
                    self.eval(frame, then)
                } else {
                    self.eval(frame, els)
                };
                if *phi {
                    value
                } else {
                    Value::Unit
                }
            },
            IExpr::While { cond, body } => {
                while self.eval(frame, cond) != Value::Bool(false) {
                    self.eval(frame, body);
                }
                Value::Unit
            },
            IExpr::Variable { index, .. } => frame[*index].clone(),
            IExpr::Assign { store, value } => {
                let v = self.eval(frame, value);
                match store.inner() {
                    IExpr::Variable { index, .. } => Machine::store(frame, *index, v.clone()),
                    _ => panic!("unknown assignment target"),
                }
                v
            },
            IExpr::Call { callee, args } => {
                let index = match callee.typ() {
                    Type::Function(f) => f.index,
                    _ => panic!("callee"),
                };
                let mut values = Vec::new();
                for a in args {
                    values.push(self.eval(frame, a));
                }
                self.call(index, values)
            },
        }
    }
}

fn run(module: &Module, symbols: &[(&str, i64)]) -> Value {
    let machine = Machine {
        module,
        symbols: symbols.iter().map(|(n, v)| (n.to_string(), *v)).collect(),
    };
    for (i, f) in module.funcs.iter().enumerate() {
        if f.name.as_str() == "main" {
            return machine.call(i, Vec::new());
        }
    }
    panic!("no main");
}

fn file(input: &str) -> Value {
    let module = match compile_source(input) {
        Ok(m) => m,
        Err(errors) => panic!("{} errors, first E{}", errors.len(), errors[0].code()),
    };
    run(&module, &[])
}

fn expr(input: &str, ret_type: &str) -> Value {
    file(&format!("fun main() {} {{ {} \n }}", ret_type, input))
}

fn expr_none(input: &str) {
    assert_eq!(expr(input, ""), Value::Unit);
}

fn expr_bool(input: &str, expect: bool) {
    assert_eq!(expr(input, "-> bool"), Value::Bool(expect));
}

fn expr_i64(input: &str, expect: i64) {
    assert_eq!(expr(input, "-> i64"), Value::Int(expect));
}

#[test]
fn block() {
    expr_i64("5 + 5 \n  2 - 2 \n 1", 1);
}

#[test]
fn binary() {
    expr_i64("5 + 37", 42);
    expr_i64("3 - 2", 1);
    expr_i64("5 * 2", 10);
    expr_i64("64 / 8", 8);
}

#[test]
fn logic() {
    expr_bool("5 == 5", true);
    expr_bool("5 != 5", false);
    expr_bool("5 == 7", false);
    expr_bool("5 != 7", true);

    expr_bool("5 <= 5", true);
    expr_bool("5 < 5", false);
    expr_bool("5 >= 5", true);
    expr_bool("5 > 5", false);

    expr_bool("5 <= 7", true);
    expr_bool("5 < 7", true);
    expr_bool("5 >= 7", false);
    expr_bool("5 > 7", false);
}

#[test]
fn if_stmt() {
    expr_none("if (true) 35");
    expr_none("if (false) 35.42 else 0");
}

#[test]
fn if_expr() {
    expr_i64("if (true) 35 else 0", 35);
    expr_i64("if (false) 35 else 0", 0);
}

#[test]
fn while_() {
    expr_i64("var a = 3 \n while (a < 10) { a = a + 1 } \n a", 10);
    expr_i64("var a = 3 \n while (a > 10) { a = a + 1 } \n a", 3);
}

#[test]
fn var_decl() {
    expr_i64("val a = 44 \n a", 44);
    expr_i64("var c = 24 + 1 \n c", 25);
}

#[test]
fn assignment() {
    expr_i64("var a = 44 \n a = 4 \n a", 4);
    expr_i64("var c = 24 + 1 \n c = c + 2 \n c", 27);
}

#[test]
fn basic_funcs() {
    assert_eq!(
        file("fun add(a: i64, b: i64) -> i64 { a + b }  fun main() -> i64 { add(400, 22) }"),
        Value::Int(422)
    );
}

#[test]
fn basic_modules() {
    let files = vec![
        File {
            path: vec![SmolStr::new("basic_modules"), SmolStr::new("main")],
            contents: "extern fun hello() -> i64\nfun main() -> i64 { hello() }".to_string(),
        },
        File {
            path: vec![SmolStr::new("basic_modules"), SmolStr::new("other")],
            contents: "fun twice(a: i64) -> i64 { a + a }".to_string(),
        },
    ];
    let modules = match compile_files(files) {
        Ok(m) => m,
        Err(_) => panic!("does not compile"),
    };
    assert_eq!(modules.len(), 2);
    assert_eq!(run(&modules[0], &[("hello", 13)]), Value::Int(13));
    assert_eq!(modules[1].funcs.len(), 1);
    assert_eq!(modules[1].funcs[0].name.as_str(), "twice");
}

#[test]
fn type_error_is_reported_once_and_nothing_runs() {
    match compile_source("fun main() -> i64 { 5 + true }") {
        Ok(_) => panic!("compiled"),
        Err(errors) => {
            assert_eq!(errors.len(), 1);
            assert_eq!(errors[0].code(), 500);
            assert_eq!(errors[0].start, 22);
        },
    }
}

#[test]
fn same_source_gives_the_same_module() {
    let src = "fun f(a: i64) -> i64 { var b = a * 2 \n if (b > 3) b else a }  fun main() -> i64 { f(4) }";
    let one = compile_source(src).ok().unwrap();
    let two = compile_source(src).ok().unwrap();
    assert_eq!(one.funcs.len(), two.funcs.len());
    assert_eq!(run(&one, &[]), Value::Int(8));
    assert_eq!(run(&two, &[]), Value::Int(8));
    assert_eq!(shape(&one.funcs[0].body), shape(&two.funcs[0].body));
}

fn shape(e: &Expr) -> String {
    match e.inner() {
        IExpr::Poison => "poison".to_string(),
        IExpr::Constant(_) => "const".to_string(),
        IExpr::Binary { left, op, right } => {
            format!("({} {} {})", shape(left), op.lex.as_str(), shape(right))
        },
        IExpr::Block(exprs) => {
            let mut s = "{".to_string();
            for x in exprs {
                s = format!("{} {};", s, shape(x));
            }
            format!("{} }}", s)
        },
        IExpr::If { cond, then, els, phi } => {
            format!("if{} {} {} {}", phi, shape(cond), shape(then), shape(els))
        },
        IExpr::While { cond, body } => format!("while {} {}", shape(cond), shape(body)),
        IExpr::Variable { index, .. } => format!("v{}", index),
        IExpr::Assign { store, value } => format!("{} = {}", shape(store), shape(value)),
        IExpr::Call { callee, args } => {
            let mut s = format!("{}(", shape(callee));
            for a in args {
                s = format!("{}{},", s, shape(a));
            }
            format!("{})", s)
        },
    }
}

#[test]
fn the_type_of_an_expression_stays() {
    let module = compile_source("fun main() -> i64 { if (1 < 2) 3 else 4 }").ok().unwrap();
    let body = &module.funcs[0].body;
    assert_eq!(body.typ(), Type::I64);
    assert_eq!(body.typ(), body.typ());
}
