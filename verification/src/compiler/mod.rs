//! The semantic compiler: from syntax trees to typed modules.

pub mod ir;
pub mod module;

use crate::compiler::ir::Module;
use crate::compiler::ir::SpecIrModule;
use crate::compiler::module::fresh;
use crate::compiler::module::passes::compiled;
use crate::compiler::module::ModuleCompiler;
use crate::compiler::module::Unit;
use crate::error::error_views;
use crate::error::Error;
use crate::error::SpecError;
use crate::parser::ast;
use crate::parser::ast::SpecModule;
use vstd::prelude::*;

verus! {

/// The failures of those of the first `n` of `units` that met any, one list
/// for each such unit, in order.
pub open spec fn failures(units: Seq<Unit>, n: nat) -> Seq<Seq<SpecError>>
    decreases n,
{
    if n == 0 || n > units.len() {
        Seq::empty()
    } else {
        let before = failures(units, (n - 1) as nat);
        if units[n - 1].errors.len() > 0 {
            before.push(units[n - 1].errors)
        } else {
            before
        }
    }
}

/// The modules of `asts`, each compiled under the number of its place.
pub open spec fn compiled_all(asts: Seq<SpecModule>) -> Seq<Unit> {
    Seq::new(asts.len(), |i: int| compiled(fresh(asts[i]), i as usize))
}

/// How the compilation of several modules ends: with all modules where
/// none met a failure, with the failures of those that did else.
pub open spec fn outcome_all(units: Seq<Unit>) -> Result<Seq<SpecIrModule>, Seq<Seq<SpecError>>> {
    if failures(units, units.len()).len() == 0 {
        Ok(Seq::new(units.len(), |i: int| units[i].module))
    } else {
        Err(failures(units, units.len()))
    }
}

/// The views of the modules of `modules`, in order.
pub open spec fn module_views(modules: Seq<Module>) -> Seq<SpecIrModule> {
    Seq::new(modules.len(), |i: int| modules[i]@)
}

/// The views of the lists of failures of `lists`, in order.
pub open spec fn list_views(lists: Seq<Vec<Error>>) -> Seq<Seq<SpecError>> {
    Seq::new(lists.len(), |i: int| error_views(lists[i]@))
}

/// What the outcome of compiling several modules is to specifications.
pub open spec fn all_res_view(r: Result<Vec<Module>, Vec<Vec<Error>>>) -> Result<
    Seq<SpecIrModule>,
    Seq<Seq<SpecError>>,
> {
    match r {
        Ok(modules) => Ok(module_views(modules@)),
        Err(lists) => Err(list_views(lists@)),
    }
}

/// Compiles several modules, each under the number of its place.
pub struct Compiler {
    pub compilers: Vec<ModuleCompiler>,
}

impl Compiler {
    /// Every module is in order and known under the number of its place.
    pub open spec fn wf(&self) -> bool {
        forall|i: int|
            0 <= i < self.compilers@.len() ==> (#[trigger] self.compilers@[i]).module.wf()
                && self.compilers@[i].id == i
    }

    /// The modules under way, in order.
    pub open spec fn units(&self) -> Seq<Unit> {
        Seq::new(self.compilers@.len(), |i: int| self.compilers@[i].unit())
    }

    /// A compiler for the modules of `modules`.
    pub fn new(modules: Vec<ast::Module>) -> (r: Compiler)
        ensures
            r.wf(),
            r.units() == Seq::new(modules@.len(), |i: int| fresh(modules@[i]@)),
    {
        let ghost all = modules@;
        let mut compilers: Vec<ModuleCompiler> = Vec::new();
        for module in it: modules
            invariant
                it.seq() == all,
                compilers@.len() == it.index(),
                forall|j: int|
                    0 <= j < compilers@.len() ==> (#[trigger] compilers@[j]).module.wf()
                        && compilers@[j].id == j && compilers@[j].unit() == fresh(all[j]@),
        {
            let id = compilers.len();
            compilers.push(ModuleCompiler::with_id(Module::from_ast(module), id));
        }
        let r = Compiler { compilers };
        assert(r.units() =~= Seq::new(all.len(), |i: int| fresh(all[i]@)));
        r
    }

    /// Compiles every module and hands back all of them, or the failures of
    /// those that met any.
    pub fn consume(self) -> (r: Result<Vec<Module>, Vec<Vec<Error>>>)
        requires
            self.wf(),
        ensures
            all_res_view(r) == outcome_all(
                Seq::new(
                    self.units().len(),
                    |i: int| compiled(self.units()[i], i as usize),
                ),
            ),
            r is Ok ==> forall|i: int|
                0 <= i < r->Ok_0@.len() ==> (#[trigger] r->Ok_0@[i]).wf(),
    {
        let ghost start = self.units();
        let ghost done = Seq::new(start.len(), |i: int| compiled(start[i], i as usize));
        let mut this = self;
        let n = this.compilers.len();
        let mut i: usize = 0;
        while i < n
            invariant
                i <= n,
                n == this.compilers@.len(),
                n == start.len(),
                done == Seq::new(start.len(), |i: int| compiled(start[i], i as usize)),
                forall|j: int|
                    0 <= j < i ==> (#[trigger] this.compilers@[j]).unit() == done[j]
                        && this.compilers@[j].module.wf(),
                forall|j: int|
                    i <= j < n ==> (#[trigger] this.compilers@[j]).unit() == start[j]
                        && this.compilers@[j].module.wf() && this.compilers@[j].id == j,
            decreases n - i,
        {
            this.compilers[i].stage_1();
            i += 1;
        }
        assert(this.units() =~= done);
        this.finish(Ghost(done))
    }

    fn finish(self, Ghost(done): Ghost<Seq<Unit>>) -> (r: Result<Vec<Module>, Vec<Vec<Error>>>)
        requires
            self.units() == done,
            forall|i: int|
                0 <= i < self.compilers@.len() ==> (#[trigger] self.compilers@[i]).module.wf(),
        ensures
            all_res_view(r) == outcome_all(done),
            r is Ok ==> forall|i: int|
                0 <= i < r->Ok_0@.len() ==> (#[trigger] r->Ok_0@[i]).wf(),
    {
        let ghost all = self.compilers@;
        let mut errors: Vec<Vec<Error>> = Vec::new();
        let mut modules: Vec<Module> = Vec::new();
        proof {
            assert(list_views(errors@) =~= Seq::empty());
        }
        for comp in it: self.compilers
            invariant
                it.seq() == all,
                done.len() == all.len(),
                forall|j: int|
                    0 <= j < all.len() ==> (#[trigger] all[j]).unit() == done[j]
                        && all[j].module.wf(),
                forall|j: int| 0 <= j < modules@.len() ==> (#[trigger] modules@[j]).wf(),
                list_views(errors@) == failures(done, it.index() as nat),
                errors@.len() == 0 ==> modules@.len() == it.index() && forall|j: int|
                    0 <= j < modules@.len() ==> (#[trigger] modules@[j])@ == done[j].module,
        {
            let ghost before = list_views(errors@);
            assert(comp.unit() == done[it.index()]);
            if comp.errors.len() > 0 {
                errors.push(comp.errors);
                assert(list_views(errors@) =~= before.push(error_views(comp.errors@)));
            } else {
                modules.push(comp.module);
            }
        }
        if errors.len() == 0 {
            assert(module_views(modules@) =~= Seq::new(done.len(), |i: int| done[i].module));
            Ok(modules)
        } else {
            Err(errors)
        }
    }
}

} // verus!
