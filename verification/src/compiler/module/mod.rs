//! The compiler of one module.

pub mod expr_compiler;
pub mod passes;
pub mod resolver;

use crate::compiler::ir::Module;
use crate::compiler::module::passes::compiled;
use crate::parser::ast;
use crate::parser::ast::SpecModule;
use crate::compiler::ir::SpecIrModule;
use crate::error::error_views;
use crate::error::Error;
use crate::error::SpecError;
use vstd::prelude::*;

verus! {

/// A module under way and the failures met so far, as specifications see
/// them.
pub struct Unit {
    pub module: SpecIrModule,
    pub errors: Seq<SpecError>,
}

/// `u` with one more failure.
pub open spec fn add_error(u: Unit, e: SpecError) -> Unit {
    Unit { errors: u.errors.push(e), ..u }
}

/// How compilation ends: with the module where no failure was met, with
/// every failure else.
pub open spec fn outcome(u: Unit) -> Result<SpecIrModule, Seq<SpecError>> {
    if u.errors.len() == 0 {
        Ok(u.module)
    } else {
        Err(u.errors)
    }
}

/// Where the compilation of the syntax tree `ast` starts.
pub open spec fn fresh(ast: SpecModule) -> Unit {
    Unit {
        module: SpecIrModule {
            funcs: Seq::empty(),
            classes: Seq::empty(),
            reserved_names: Set::empty(),
            ast,
        },
        errors: Seq::empty(),
    }
}

/// What compiling the syntax tree `ast` as module `id` gives.
pub open spec fn compile_ast(ast: SpecModule, id: usize) -> Result<SpecIrModule, Seq<SpecError>> {
    outcome(compiled(fresh(ast), id))
}

/// What the outcome of a compilation is to specifications.
pub open spec fn ir_res_view(r: Result<Module, Vec<Error>>) -> Result<
    SpecIrModule,
    Seq<SpecError>,
> {
    match r {
        Ok(m) => Ok(m@),
        Err(errors) => Err(error_views(errors@)),
    }
}

/// Compiles one module. `id` is the number under which other modules know
/// it.
pub struct ModuleCompiler {
    pub module: Module,
    pub id: usize,
    pub errors: Vec<Error>,
}

impl ModuleCompiler {
    /// The module under way and the failures met so far.
    pub open spec fn unit(&self) -> Unit {
        Unit { module: self.module@, errors: error_views(self.errors@) }
    }

    /// A compiler for `module`, known as module `0`.
    pub fn new(module: Module) -> (r: ModuleCompiler)
        ensures
            r.module == module,
            r.id == 0,
            r.unit() == (Unit { module: module@, errors: Seq::empty() }),
    {
        ModuleCompiler::with_id(module, 0)
    }

    /// A compiler for `module`, known as module `id`.
    pub fn with_id(module: Module, id: usize) -> (r: ModuleCompiler)
        ensures
            r.module == module,
            r.id == id,
            r.unit() == (Unit { module: module@, errors: Seq::empty() }),
    {
        let r = ModuleCompiler { module, id, errors: Vec::new() };
        assert(r.unit().errors =~= Seq::empty());
        r
    }

    /// Runs every pass and hands back the module, or every failure met.
    pub fn consume(self) -> (r: Result<Module, Vec<Error>>)
        requires
            self.module.wf(),
        ensures
            ir_res_view(r) == outcome(compiled(self.unit(), self.id)),
            r is Ok ==> r->Ok_0.wf(),
    {
        let mut this = self;
        this.run_all();
        if this.errors.len() == 0 {
            Ok(this.module)
        } else {
            Err(this.errors)
        }
    }

    fn report(&mut self, e: Error)
        ensures
            final(self).module == old(self).module,
            final(self).id == old(self).id,
            final(self).unit() == add_error(old(self).unit(), e@),
    {
        let ghost before = error_views(self.errors@);
        self.errors.push(e);
        assert(error_views(self.errors@) =~= before.push(e@));
    }
}

/// Compiles the syntax tree `ast` as module `id`.
pub fn compile_module(ast: ast::Module, id: usize) -> (r: Result<Module, Vec<Error>>)
    ensures
        ir_res_view(r) == compile_ast(ast@, id),
        r is Ok ==> r->Ok_0.wf(),
{
    ModuleCompiler::with_id(Module::from_ast(ast), id).consume()
}

} // verus!
