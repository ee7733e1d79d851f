//! A small statically typed language: interned names, scanner, parser,
//! type checker, typed intermediate representation and a lowering to
//! backend instructions, together with an x86-64 instruction encoder.
//!
//! `compile_source` takes one source text to a typed module,
//! `compile_files` takes several files to several modules, and
//! `plan_source` goes on to the instructions that a code generator is to be
//! asked for. Nothing here runs code or reads a file.

pub mod assembler;
pub mod compiler;
pub mod error;
pub mod filesystem;
pub mod lexer;
pub mod parser;
pub mod smol_str;
pub mod vm;

use crate::compiler::all_res_view;
use crate::compiler::compiled_all;
use crate::compiler::ir::Module;
use crate::compiler::ir::SpecIrModule;
use crate::compiler::module::compile_ast;
use crate::compiler::module::compile_module;
use crate::compiler::module::ir_res_view;
use crate::compiler::module::passes::compiled;
use crate::compiler::outcome_all;
use crate::compiler::Compiler;
use crate::error::error_views;
use crate::error::Error;
use crate::error::SpecError;
use crate::filesystem::File;
use crate::parser::ast;
use crate::parser::ast::name_views;
use crate::parser::ast::SpecModule;
use crate::parser::parse_source;
use crate::parser::Parser;
use crate::smol_str::SmolStr;
use crate::vm::jit_module;
use crate::vm::plan_of;
use crate::vm::FunctionPlan;
use vstd::prelude::*;
use vstd::string::StringSliceAdditionalSpecFns;
use vstd::utf8::encode_utf8;

verus! {

/// The path under which a single source text is known: `script`.
pub open spec fn script_path() -> Seq<Seq<u8>> {
    seq![seq![('s' as u8), ('c' as u8), ('r' as u8), ('i' as u8), ('p' as u8), ('t' as u8)]]
}

/// What compiling the source text `src` gives: its module, or the failures
/// of reading it, or else those of compiling it.
pub open spec fn source_outcome(src: Seq<u8>) -> Result<SpecIrModule, Seq<SpecError>> {
    match parse_source(src, script_path()) {
        Err(errors) => Err(errors),
        Ok(module) => compile_ast(module, 0),
    }
}

/// Reads and compiles one source text.
pub fn compile_source(program: &str) -> (r: Result<Module, Vec<Error>>)
    ensures
        ir_res_view(r) == source_outcome(program.spec_bytes()),
        r is Ok ==> r->Ok_0.wf(),
{
    let script = ['s' as u8, 'c' as u8, 'r' as u8, 'i' as u8, 'p' as u8, 't' as u8];
    let mut path: Vec<SmolStr> = Vec::new();
    path.push(SmolStr::from_bytes(script.as_slice()));
    proof {
        assert(script@ =~= script_path()[0]);
        assert(name_views(path@) =~= script_path());
    }
    let parser = Parser::new(program);
    assert(parser.outcome(script_path()) == parse_source(program.spec_bytes(), script_path()));
    match parser.parse(path) {
        Err(errors) => Err(errors),
        Ok(module) => compile_module(module, 0),
    }
}

/// Compiling the same source text twice gives the same module, or the same
/// failures.
pub proof fn lemma_compilation_is_deterministic(
    src: Seq<u8>,
    first: Result<Module, Vec<Error>>,
    second: Result<Module, Vec<Error>>,
)
    requires
        ir_res_view(first) == source_outcome(src),
        ir_res_view(second) == source_outcome(src),
    ensures
        ir_res_view(first) == ir_res_view(second),
{
}

/// Reads and compiles one source text, and plans the backend instructions
/// of each of its functions.
pub fn plan_source(program: &str) -> (r: Result<Vec<FunctionPlan>, Vec<Error>>)
    ensures
        match source_outcome(program.spec_bytes()) {
            Err(errors) => r is Err && error_views(r->Err_0@) == errors,
            Ok(module) => r is Ok && r->Ok_0@.len() == module.funcs.len() && forall|i: int|
                0 <= i < module.funcs.len() ==> (#[trigger] r->Ok_0@[i])@ == plan_of(module, 0, i),
        },
{
    match compile_source(program) {
        Err(errors) => Err(errors),
        Ok(module) => Ok(jit_module(&module, 0)),
    }
}

/// A source file as specifications see it.
pub struct SpecFile {
    pub path: Seq<Seq<u8>>,
    pub contents: Seq<u8>,
}

/// What `file` is to specifications.
pub open spec fn file_view(file: File) -> SpecFile {
    SpecFile { path: name_views(file.path@), contents: encode_utf8(file.contents@) }
}

/// The views of the files of `files`, in order.
pub open spec fn file_views(files: Seq<File>) -> Seq<SpecFile> {
    Seq::new(files.len(), |i: int| file_view(files[i]))
}

/// What reading the first `n` of `files` gives: the modules of those that
/// were read without failure, and the failures of the others, both in the
/// order of the files.
pub open spec fn parsed_all(files: Seq<SpecFile>, n: nat) -> (Seq<SpecModule>, Seq<Seq<SpecError>>)
    decreases n,
{
    if n == 0 || n > files.len() {
        (Seq::empty(), Seq::empty())
    } else {
        let (modules, errors) = parsed_all(files, (n - 1) as nat);
        match parse_source(files[n - 1].contents, files[n - 1].path) {
            Ok(module) => (modules.push(module), errors),
            Err(e) => (modules, errors.push(e)),
        }
    }
}

/// What compiling `files` gives: the failures of reading them where there
/// are any; else all modules, or the failures of compiling them.
pub open spec fn files_outcome(files: Seq<SpecFile>) -> Result<
    Seq<SpecIrModule>,
    Seq<Seq<SpecError>>,
> {
    let (modules, errors) = parsed_all(files, files.len());
    if errors.len() > 0 {
        Err(errors)
    } else {
        outcome_all(compiled_all(modules))
    }
}

/// Reads and compiles several source files. Each module is known under the
/// number of its place among the files.
pub fn compile_files(files: Vec<File>) -> (r: Result<Vec<Module>, Vec<Vec<Error>>>)
    ensures
        all_res_view(r) == files_outcome(file_views(files@)),
        r is Ok ==> forall|i: int| 0 <= i < r->Ok_0@.len() ==> (#[trigger] r->Ok_0@[i]).wf(),
{
    let ghost all = files@;
    let ghost views = file_views(all);
    let mut modules: Vec<ast::Module> = Vec::new();
    let mut errors: Vec<Vec<Error>> = Vec::new();
    proof {
        assert(Seq::new(modules@.len(), |i: int| modules@[i]@) =~= Seq::<SpecModule>::empty());
        assert(crate::compiler::list_views(errors@) =~= Seq::empty());
    }
    for file in it: files
        invariant
            it.seq() == all,
            views == file_views(all),
            Seq::new(modules@.len(), |i: int| modules@[i]@) == parsed_all(
                views,
                it.index() as nat,
            ).0,
            crate::compiler::list_views(errors@) == parsed_all(views, it.index() as nat).1,
    {
        let ghost ms = Seq::new(modules@.len(), |i: int| modules@[i]@);
        let ghost es = crate::compiler::list_views(errors@);
        let ghost k = it.index();
        assert(views[k] == file_view(file));
        let parser = Parser::new(file.contents.as_str());
        assert(parser.outcome(name_views(file.path@)) == parse_source(
            encode_utf8(file.contents@),
            name_views(file.path@),
        ));
        match parser.parse(file.path) {
            Ok(module) => {
                modules.push(module);
                assert(Seq::new(modules@.len(), |i: int| modules@[i]@) =~= ms.push(
                    modules@.last()@,
                ));
            },
            Err(err) => {
                errors.push(err);
                assert(crate::compiler::list_views(errors@) =~= es.push(
                    error_views(errors@.last()@),
                ));
            },
        }
    }
    if errors.len() > 0 {
        return Err(errors);
    }
    let ghost asts = Seq::new(modules@.len(), |i: int| modules@[i]@);
    let compiler = Compiler::new(modules);
    proof {
        assert(Seq::new(
            compiler.units().len(),
            |i: int| compiled(compiler.units()[i], i as usize),
        ) =~= compiled_all(asts));
    }
    compiler.consume()
}

} // verus!
