//! The passes over a module: declare the classes, declare the functions,
//! fill the classes, compile the bodies.

use crate::compiler::ir::class_ir_views;
use crate::compiler::ir::func_views;
use crate::compiler::ir::tables::entered;
use crate::compiler::ir::var_views;
use crate::compiler::ir::Class;
use crate::compiler::ir::ClassContent;
use crate::compiler::ir::ClassTable;
use crate::compiler::ir::Expr;
use crate::compiler::ir::FuncRef;
use crate::compiler::ir::Function;
use crate::compiler::ir::SpecClassContent;
use crate::compiler::ir::SpecIr;
use crate::compiler::ir::SpecIrClass;
use crate::compiler::ir::SpecIrFunction;
use crate::compiler::ir::SpecIrModule;
use crate::compiler::ir::SpecVarStore;
use crate::compiler::ir::Type;
use crate::compiler::ir::VarStore;
use crate::compiler::module::add_error;
use crate::compiler::module::expr_compiler::compile;
use crate::compiler::module::expr_compiler::count_taken;
use crate::compiler::module::expr_compiler::lemma_bind_all_keeps_errors;
use crate::compiler::module::expr_compiler::lemma_compile_keeps_taken;
use crate::compiler::module::expr_compiler::lemma_count_taken_push;
use crate::compiler::module::expr_compiler::initial;
use crate::compiler::module::expr_compiler::sig_views;
use crate::compiler::module::expr_compiler::signatures;
use crate::compiler::module::expr_compiler::sigs_of;
use crate::compiler::module::expr_compiler::Ctx;
use crate::compiler::module::expr_compiler::ExprCompiler;
use crate::compiler::module::resolver::class_names;
use crate::compiler::module::resolver::resolve;
use crate::compiler::module::ModuleCompiler;
use crate::compiler::module::Unit;
use crate::error::Error;
use crate::error::SpecError;
use crate::error::SpecErrorKind;
use crate::parser::ast;
use crate::parser::ast::class_views;
use crate::parser::ast::function_views;
use crate::parser::ast::member_views;
use crate::parser::ast::param_views;
use crate::parser::ast::SpecClass;
use crate::parser::ast::SpecFunction;
use crate::parser::ast::SpecMember;
use crate::parser::ast::SpecModule;
use crate::parser::ast::SpecParameter;
use vstd::prelude::*;

verus! {

/// `u` with `name` taken.
pub open spec fn reserve(u: Unit, name: Seq<u8>) -> Unit {
    Unit {
        module: SpecIrModule { reserved_names: u.module.reserved_names.insert(name), ..u.module },
        ..u
    }
}

/// The failure of declaring `name` a second time, at `start`.
pub open spec fn taken(name: Seq<u8>, start: nat) -> SpecError {
    SpecError { kind: SpecErrorKind::E201(name), start }
}

/// Declares one class: takes its name and adds an empty class. Where the
/// name is taken, the class is left out and the failure is kept.
pub open spec fn declare_class(u: Unit, cls: SpecClass) -> Unit {
    if u.module.reserved_names.contains(cls.name.lex) {
        add_error(u, taken(cls.name.lex, cls.name.start))
    } else {
        let r = reserve(u, cls.name.lex);
        Unit {
            module: SpecIrModule {
                classes: r.module.classes.push(
                    SpecIrClass { name: cls.name.lex, content: Seq::empty(), ast: cls },
                ),
                ..r.module
            },
            ..r
        }
    }
}

/// Declares the classes of `classes`, first to last.
pub open spec fn declared_classes(u: Unit, classes: Seq<SpecClass>) -> Unit
    decreases classes.len(),
{
    if classes.len() == 0 {
        u
    } else {
        declare_class(declared_classes(u, classes.drop_last()), classes.last())
    }
}

/// The first pass: every class of the syntax tree is moved out of it and
/// declared.
pub open spec fn declare_classes_pass(u: Unit) -> Unit {
    declared_classes(
        Unit {
            module: SpecIrModule {
                ast: SpecModule { classes: Seq::empty(), ..u.module.ast },
                ..u.module
            },
            ..u
        },
        u.module.ast.classes,
    )
}

/// The parameters `params` as variables, or the first failure of resolving
/// one of their types.
pub open spec fn resolved_params(names: Seq<Seq<u8>>, id: usize, params: Seq<SpecParameter>) -> Result<
    Seq<SpecVarStore>,
    SpecError,
>
    decreases params.len(),
{
    if params.len() == 0 {
        Ok(Seq::empty())
    } else {
        match resolved_params(names, id, params.drop_last()) {
            Err(e) => Err(e),
            Ok(vars) => match resolve(names, id, params.last().ty) {
                Err(e) => Err(e),
                Ok(ty) => Ok(
                    vars.push(
                        SpecVarStore {
                            ty,
                            name: params.last().name,
                            index: (params.len() - 1) as usize,
                            mutable: false,
                        },
                    ),
                ),
            },
        }
    }
}

/// The type that `func` returns: `Void` where it names none.
pub open spec fn resolved_return(names: Seq<Seq<u8>>, id: usize, func: SpecFunction) -> Result<
    Type,
    SpecError,
> {
    match func.ret_type {
        Some(t) => resolve(names, id, t),
        None => Ok(Type::Void),
    }
}

/// The function that `func` declares, its body not yet compiled, or the
/// first failure of resolving one of its types.
pub open spec fn declared(names: Seq<Seq<u8>>, id: usize, func: SpecFunction) -> Result<
    SpecIrFunction,
    SpecError,
> {
    match resolved_params(names, id, func.params) {
        Err(e) => Err(e),
        Ok(params) => match resolved_return(names, id, func) {
            Err(e) => Err(e),
            Ok(ret_type) => Ok(
                SpecIrFunction {
                    name: func.name.lex,
                    params,
                    ret_type,
                    locals: Seq::empty(),
                    body: SpecIr::Poison,
                    ast: func,
                },
            ),
        },
    }
}

/// `u` with the function `f` added.
pub open spec fn add_function(u: Unit, f: SpecIrFunction) -> Unit {
    Unit { module: SpecIrModule { funcs: u.module.funcs.push(f), ..u.module }, ..u }
}

/// Declares one function of the module itself: takes its name and adds the
/// function. Where the name is taken or a type is unknown, the function is
/// left out and the failure is kept.
pub open spec fn declare_free_function(u: Unit, id: usize, func: SpecFunction) -> Unit {
    if u.module.reserved_names.contains(func.name.lex) {
        add_error(u, taken(func.name.lex, func.name.start))
    } else {
        let r = reserve(u, func.name.lex);
        match declared(class_names(r.module.classes), id, func) {
            Ok(f) => add_function(r, f),
            Err(e) => add_error(r, e),
        }
    }
}

/// Declares the functions of `funcs`, first to last.
pub open spec fn declared_functions(u: Unit, id: usize, funcs: Seq<SpecFunction>) -> Unit
    decreases funcs.len(),
{
    if funcs.len() == 0 {
        u
    } else {
        declare_free_function(declared_functions(u, id, funcs.drop_last()), id, funcs.last())
    }
}

/// The second pass: every function of the syntax tree is moved out of it
/// and declared.
pub open spec fn declare_functions_pass(u: Unit, id: usize) -> Unit {
    declared_functions(
        Unit {
            module: SpecIrModule {
                ast: SpecModule { functions: Seq::empty(), ..u.module.ast },
                ..u.module
            },
            ..u
        },
        id,
        u.module.ast.functions,
    )
}

/// `u` with `item` put under `name` in the class at `c`.
pub open spec fn put_content(u: Unit, c: int, name: Seq<u8>, item: SpecClassContent) -> Unit {
    let cls = u.module.classes[c];
    Unit {
        module: SpecIrModule {
            classes: u.module.classes.update(
                c,
                SpecIrClass { content: entered(cls.content, name, item), ..cls },
            ),
            ..u.module
        },
        ..u
    }
}

/// Gives the class at `c` the member `m`, which is the `index`-th of its
/// members. Where the type of the member is unknown, the member is left out
/// and the failure is kept.
pub open spec fn with_member(u: Unit, id: usize, c: int, m: SpecMember, index: int) -> Unit {
    match resolve(class_names(u.module.classes), id, m.ty) {
        Err(e) => add_error(u, e),
        Ok(ty) => put_content(
            u,
            c,
            m.name.lex,
            SpecClassContent::Member(
                SpecVarStore { ty, name: m.name.lex, index: index as usize, mutable: m.mutable },
            ),
        ),
    }
}

/// Gives the class at `c` the members of `members`, first to last.
pub open spec fn with_members(u: Unit, id: usize, c: int, members: Seq<SpecMember>) -> Unit
    decreases members.len(),
{
    if members.len() == 0 {
        u
    } else {
        with_member(
            with_members(u, id, c, members.drop_last()),
            id,
            c,
            members.last(),
            members.len() - 1,
        )
    }
}

/// Gives the class at `c` the function `func`, as a method or as a static
/// function: the function is added to the module and put into the class
/// under its name. The name is not taken in the module. Where a type is
/// unknown, the function is left out and the failure is kept.
pub open spec fn with_function(u: Unit, id: usize, c: int, func: SpecFunction, is_static: bool) -> Unit {
    match declared(class_names(u.module.classes), id, func) {
        Err(e) => add_error(u, e),
        Ok(f) => {
            let to = FuncRef { module: id, index: u.module.funcs.len() as usize };
            put_content(
                add_function(u, f),
                c,
                func.name.lex,
                if is_static {
                    SpecClassContent::Function(to)
                } else {
                    SpecClassContent::Method(to)
                },
            )
        },
    }
}

/// Gives the class at `c` the functions of `funcs`, first to last.
pub open spec fn with_functions(
    u: Unit,
    id: usize,
    c: int,
    funcs: Seq<SpecFunction>,
    is_static: bool,
) -> Unit
    decreases funcs.len(),
{
    if funcs.len() == 0 {
        u
    } else {
        with_function(
            with_functions(u, id, c, funcs.drop_last(), is_static),
            id,
            c,
            funcs.last(),
            is_static,
        )
    }
}

/// `u` with the methods and static functions moved out of the syntax tree of
/// the class at `c`.
pub open spec fn drained(u: Unit, c: int) -> Unit {
    let cls = u.module.classes[c];
    Unit {
        module: SpecIrModule {
            classes: u.module.classes.update(
                c,
                SpecIrClass {
                    ast: SpecClass { methods: Seq::empty(), functions: Seq::empty(), ..cls.ast },
                    ..cls
                },
            ),
            ..u.module
        },
        ..u
    }
}

/// Fills the class at `c`: its members first, then its methods, then its
/// static functions.
pub open spec fn generate_class(u: Unit, id: usize, c: int) -> Unit {
    let source = u.module.classes[c].ast;
    with_functions(
        with_functions(
            with_members(drained(u, c), id, c, source.members),
            id,
            c,
            source.methods,
            false,
        ),
        id,
        c,
        source.functions,
        true,
    )
}

/// The third pass, up to the class at `n`: the first `n` classes are filled.
pub open spec fn generated_classes(u: Unit, id: usize, n: nat) -> Unit
    decreases n,
{
    if n == 0 {
        u
    } else {
        generate_class(generated_classes(u, id, (n - 1) as nat), id, n - 1)
    }
}

/// The third pass: every class is filled.
pub open spec fn generate_classes_pass(u: Unit, id: usize) -> Unit {
    generated_classes(u, id, u.module.classes.len())
}

/// The function `f` with its body compiled, where it has one, and the
/// failures of `errors` followed by those met in the body.
pub open spec fn compile_body(ctx: Ctx, f: SpecIrFunction, errors: Seq<SpecError>) -> (
    SpecIrFunction,
    Seq<SpecError>,
) {
    match f.ast.body {
        None => (f, errors),
        Some(body) => {
            let (ir, st) = compile(ctx, initial(f.params, errors), body);
            (SpecIrFunction { body: ir, locals: st.locals, ..f }, st.errors)
        },
    }
}

/// The fourth pass, up to the function at `n`: the bodies of the first `n`
/// functions are compiled.
pub open spec fn generated_functions(u: Unit, ctx: Ctx, n: nat) -> Unit
    decreases n,
{
    if n == 0 || n > u.module.funcs.len() {
        u
    } else {
        let p = generated_functions(u, ctx, (n - 1) as nat);
        let (f, errors) = compile_body(ctx, p.module.funcs[n - 1], p.errors);
        Unit { module: SpecIrModule { funcs: p.module.funcs.update(n - 1, f), ..p.module }, errors }
    }
}

/// The fourth pass: the body of every function is compiled, against the
/// signatures of all functions of the module.
pub open spec fn generate_functions_pass(u: Unit, id: usize) -> Unit {
    generated_functions(u, Ctx { id, sigs: sigs_of(u.module.funcs) }, u.module.funcs.len())
}

/// All four passes, one after the other.
pub open spec fn compiled(u: Unit, id: usize) -> Unit {
    generate_functions_pass(
        generate_classes_pass(declare_functions_pass(declare_classes_pass(u), id), id),
        id,
    )
}

/// The fourth pass leaves the number of functions as it is.
pub proof fn lemma_generated_functions_len(u: Unit, ctx: Ctx, n: nat)
    ensures
        generated_functions(u, ctx, n).module.funcs.len() == u.module.funcs.len(),
    decreases n,
{
    if !(n == 0 || n > u.module.funcs.len()) {
        lemma_generated_functions_len(u, ctx, (n - 1) as nat);
    }
}

/// What the outcome of declaring a function is to specifications.
pub open spec fn func_res_view(r: Result<Function, Error>) -> Result<SpecIrFunction, SpecError> {
    match r {
        Ok(f) => Ok(f@),
        Err(e) => Err(e@),
    }
}

impl ModuleCompiler {
    /// The first pass: declares the classes.
    pub fn declare_classes(&mut self)
        requires
            old(self).module.wf(),
        ensures
            final(self).module.wf(),
            final(self).id == old(self).id,
            final(self).unit() == declare_classes_pass(old(self).unit()),
    {
        let mut classes: Vec<ast::Class> = Vec::new();
        std::mem::swap(&mut self.module.ast.classes, &mut classes);
        let ghost all = classes@;
        let ghost start = self.unit();
        proof {
            assert(class_views(self.module.ast.classes@) =~= Seq::empty());
            assert(class_views(all.subrange(0, 0)) =~= Seq::empty());
        }
        for cls in it: classes
            invariant
                it.seq() == all,
                self.module.wf(),
                self.id == old(self).id,
                self.unit() == declared_classes(start, class_views(all.subrange(0, it.index()))),
        {
            let ghost before = self.unit();
            let ghost k = it.index();
            proof {
                assert(class_views(all.subrange(0, k + 1)).drop_last() =~= class_views(
                    all.subrange(0, k),
                ));
                assert(class_views(all.subrange(0, k + 1)).last() == cls@);
            }
            match self.module.try_reserve_name(&cls.name.lex, cls.name.start) {
                Err(e) => {
                    assert(self.module@.reserved_names =~= before.module.reserved_names);
                    self.report(e);
                },
                Ok(_) => {
                    let ghost views = class_ir_views(self.module.classes@);
                    let name = cls.name.lex.clone();
                    let added = Class { name, content: ClassTable::new(), ast: cls };
                    assert(added@.content =~= Seq::empty());
                    self.module.classes.push(added);
                    assert(class_ir_views(self.module.classes@) =~= views.push(added@));
                },
            }
            assert(self.unit() == declare_class(before, cls@));
        }
        proof {
            assert(all.subrange(0, all.len() as int) =~= all);
        }
    }

    fn class_function(&mut self, c: usize, func: ast::Function, is_static: bool)
        requires
            old(self).module.wf(),
            c < old(self).module.classes@.len(),
        ensures
            final(self).module.wf(),
            final(self).id == old(self).id,
            final(self).module.classes@.len() == old(self).module.classes@.len(),
            final(self).unit() == with_function(
                old(self).unit(),
                old(self).id,
                c as int,
                func@,
                is_static,
            ),
    {
        let name = func.name.lex.clone();
        match self.declare_function(func) {
            Ok(f) => {
                let to = self.add(f);
                let ghost views = class_ir_views(self.module.classes@);
                let item = if is_static {
                    ClassContent::Function(to)
                } else {
                    ClassContent::Method(to)
                };
                let ghost what = item@;
                self.module.classes[c].content.insert(&name, item);
                proof {
                    let cls = views[c as int];
                    assert(class_ir_views(self.module.classes@) =~= views.update(
                        c as int,
                        SpecIrClass { content: entered(cls.content, name@, what), ..cls },
                    ));
                }
            },
            Err(e) => {
                self.report(e);
            },
        }
    }

    fn class_member(&mut self, c: usize, i: usize)
        requires
            old(self).module.wf(),
            c < old(self).module.classes@.len(),
            i < old(self).module.classes@[c as int].ast.members@.len(),
        ensures
            final(self).module.wf(),
            final(self).id == old(self).id,
            final(self).module.classes@.len() == old(self).module.classes@.len(),
            final(self).module.classes@[c as int].ast == old(self).module.classes@[c as int].ast,
            final(self).unit() == with_member(
                old(self).unit(),
                old(self).id,
                c as int,
                old(self).module.classes@[c as int].ast.members@[i as int]@,
                i as int,
            ),
    {
        match self.resolve_ty(&self.module.classes[c].ast.members[i].ty) {
            Err(e) => {
                self.report(e);
            },
            Ok(ty) => {
                let name = self.module.classes[c].ast.members[i].name.lex.clone();
                let mutable = self.module.classes[c].ast.members[i].mutable;
                let store = VarStore { ty, name: name.clone(), index: i, mutable };
                let ghost views = class_ir_views(self.module.classes@);
                let item = ClassContent::Member(store);
                let ghost what = item@;
                self.module.classes[c].content.insert(&name, item);
                proof {
                    let cls = views[c as int];
                    assert(class_ir_views(self.module.classes@) =~= views.update(
                        c as int,
                        SpecIrClass { content: entered(cls.content, name@, what), ..cls },
                    ));
                }
            },
        }
    }

    fn generate_class(&mut self, c: usize)
        requires
            old(self).module.wf(),
            c < old(self).module.classes@.len(),
        ensures
            final(self).module.wf(),
            final(self).id == old(self).id,
            final(self).module.classes@.len() == old(self).module.classes@.len(),
            final(self).unit() == generate_class(old(self).unit(), old(self).id, c as int),
    {
        let ghost source = self.module.classes@[c as int].ast@;
        let ghost views = class_ir_views(self.module.classes@);
        let mut methods: Vec<ast::Function> = Vec::new();
        let mut functions: Vec<ast::Function> = Vec::new();
        std::mem::swap(&mut self.module.classes[c].ast.methods, &mut methods);
        std::mem::swap(&mut self.module.classes[c].ast.functions, &mut functions);
        proof {
            let cls = views[c as int];
            assert(function_views(self.module.classes@[c as int].ast.methods@) =~= Seq::empty());
            assert(function_views(self.module.classes@[c as int].ast.functions@) =~= Seq::empty());
            assert(class_ir_views(self.module.classes@) =~= views.update(
                c as int,
                SpecIrClass {
                    ast: SpecClass { methods: Seq::empty(), functions: Seq::empty(), ..cls.ast },
                    ..cls
                },
            ));
        }
        let ghost start = self.unit();
        let ghost members = source.members;
        let m = self.module.classes[c].ast.members.len();
        let mut i: usize = 0;
        proof {
            assert(members.subrange(0, 0) =~= Seq::empty());
        }
        while i < m
            invariant
                i <= m,
                c < self.module.classes@.len(),
                self.module.classes@.len() == old(self).module.classes@.len(),
                m == self.module.classes@[c as int].ast.members@.len(),
                members == member_views(self.module.classes@[c as int].ast.members@),
                self.module.wf(),
                self.id == old(self).id,
                self.unit() == with_members(start, self.id, c as int, members.subrange(0, i as int)),
            decreases m - i,
        {
            proof {
                assert(members.subrange(0, i + 1).drop_last() =~= members.subrange(0, i as int));
            }
            self.class_member(c, i);
            i += 1;
        }
        proof {
            assert(members.subrange(0, m as int) =~= members);
        }
        let ghost mid = self.unit();
        let ghost all = methods@;
        proof {
            assert(function_views(all.subrange(0, 0)) =~= Seq::empty());
        }
        for method in it: methods
            invariant
                it.seq() == all,
                c < self.module.classes@.len(),
                self.module.classes@.len() == old(self).module.classes@.len(),
                self.module.wf(),
                self.id == old(self).id,
                self.unit() == with_functions(
                    mid,
                    self.id,
                    c as int,
                    function_views(all.subrange(0, it.index())),
                    false,
                ),
        {
            let ghost k = it.index();
            proof {
                assert(function_views(all.subrange(0, k + 1)).drop_last() =~= function_views(
                    all.subrange(0, k),
                ));
                assert(function_views(all.subrange(0, k + 1)).last() == method@);
            }
            self.class_function(c, method, false);
        }
        proof {
            assert(all.subrange(0, all.len() as int) =~= all);
        }
        let ghost late = self.unit();
        let ghost rest = functions@;
        proof {
            assert(function_views(rest.subrange(0, 0)) =~= Seq::empty());
        }
        for function in it: functions
            invariant
                it.seq() == rest,
                c < self.module.classes@.len(),
                self.module.classes@.len() == old(self).module.classes@.len(),
                self.module.wf(),
                self.id == old(self).id,
                self.unit() == with_functions(
                    late,
                    self.id,
                    c as int,
                    function_views(rest.subrange(0, it.index())),
                    true,
                ),
        {
            let ghost k = it.index();
            proof {
                assert(function_views(rest.subrange(0, k + 1)).drop_last() =~= function_views(
                    rest.subrange(0, k),
                ));
                assert(function_views(rest.subrange(0, k + 1)).last() == function@);
            }
            self.class_function(c, function, true);
        }
        proof {
            assert(rest.subrange(0, rest.len() as int) =~= rest);
        }
    }

    /// The third pass: fills the classes.
    pub fn generate_classes(&mut self)
        requires
            old(self).module.wf(),
        ensures
            final(self).module.wf(),
            final(self).id == old(self).id,
            final(self).unit() == generate_classes_pass(old(self).unit(), old(self).id),
    {
        let n = self.module.classes.len();
        let ghost start = self.unit();
        let mut c: usize = 0;
        while c < n
            invariant
                c <= n,
                n == self.module.classes@.len(),
                n == start.module.classes.len(),
                self.module.wf(),
                self.id == old(self).id,
                self.unit() == generated_classes(start, self.id, c as nat),
            decreases n - c,
        {
            self.generate_class(c);
            c += 1;
        }
    }

    /// The fourth pass: compiles the bodies.
    pub fn generate_functions(&mut self)
        requires
            old(self).module.wf(),
        ensures
            final(self).module.wf(),
            final(self).id == old(self).id,
            final(self).unit() == generate_functions_pass(old(self).unit(), old(self).id),
    {
        let sigs = signatures(&self.module.funcs);
        let ghost start = self.unit();
        let ghost ctx = Ctx { id: self.id, sigs: sigs_of(start.module.funcs) };
        let n = self.module.funcs.len();
        let mut i: usize = 0;
        while i < n
            invariant
                i <= n,
                n == self.module.funcs@.len(),
                n == start.module.funcs.len(),
                sig_views(sigs@) == ctx.sigs,
                ctx.id == self.id,
                self.module.wf(),
                self.id == old(self).id,
                self.unit() == generated_functions(start, ctx, i as nat),
            decreases n - i,
        {
            let ghost before = self.unit();
            let ghost views = func_views(self.module.funcs@);
            proof {
                lemma_generated_functions_len(start, ctx, i as nat);
            }
            if self.module.funcs[i].ast.body.is_some() {
                let mut errors: Vec<Error> = Vec::new();
                std::mem::swap(&mut self.errors, &mut errors);
                let mut compiler = ExprCompiler::new(&sigs, self.id, &self.module.funcs[i], errors);
                let body = match &self.module.funcs[i].ast.body {
                    Some(b) => compiler.expr(b),
                    None => Expr::poison(),
                };
                let (locals, errors) = compiler.finish();
                let ghost made = body@;
                let ghost vars = var_views(locals@);
                self.module.funcs[i].body = body;
                self.module.funcs[i].locals = locals;
                self.errors = errors;
                proof {
                    assert(func_views(self.module.funcs@) =~= views.update(
                        i as int,
                        SpecIrFunction { body: made, locals: vars, ..views[i as int] },
                    ));
                }
            } else {
                proof {
                    assert(views.update(i as int, views[i as int]) =~= views);
                }
            }
            i += 1;
        }
    }

    /// All four passes, one after the other.
    pub fn stage_1(&mut self)
        requires
            old(self).module.wf(),
        ensures
            final(self).module.wf(),
            final(self).id == old(self).id,
            final(self).unit() == compiled(old(self).unit(), old(self).id),
    {
        self.declare_classes();
        self.declare_functions();
        self.generate_classes();
        self.generate_functions();
    }

    /// Runs every pass.
    pub fn run_all(&mut self)
        requires
            old(self).module.wf(),
        ensures
            final(self).module.wf(),
            final(self).id == old(self).id,
            final(self).unit() == compiled(old(self).unit(), old(self).id),
    {
        self.stage_1();
    }

    /// The function that `func` declares, its body not yet compiled.
    pub fn declare_function(&self, func: ast::Function) -> (r: Result<Function, Error>)
        ensures
            func_res_view(r) == declared(class_names(self.module@.classes), self.id, func@),
    {
        let ghost names = class_names(self.module@.classes);
        let ghost all = param_views(func.params@);
        let mut params: Vec<VarStore> = Vec::new();
        let n = func.params.len();
        let mut i: usize = 0;
        proof {
            assert(var_views(params@) =~= Seq::empty());
            assert(all.subrange(0, 0) =~= Seq::empty());
        }
        while i < n
            invariant
                i <= n,
                n == func.params@.len(),
                names == class_names(self.module@.classes),
                all == param_views(func.params@),
                resolved_params(names, self.id, all.subrange(0, i as int)) == Ok::<
                    Seq<SpecVarStore>,
                    SpecError,
                >(var_views(params@)),
            decreases n - i,
        {
            let ghost before = var_views(params@);
            proof {
                assert(all.subrange(0, i + 1).drop_last() =~= all.subrange(0, i as int));
                assert(all.subrange(0, i + 1).last() == func.params@[i as int]@);
            }
            match self.resolve_ty(&func.params[i].ty) {
                Err(e) => {
                    proof {
                        lemma_params_fail(names, self.id, all, i + 1);
                    }
                    return Err(e);
                },
                Ok(ty) => {
                    params.push(
                        VarStore { ty, name: func.params[i].name.clone(), index: i, mutable: false },
                    );
                    assert(var_views(params@) =~= before.push(params@.last()@));
                },
            }
            i += 1;
        }
        proof {
            assert(all.subrange(0, n as int) =~= all);
        }
        let ret_type = match &func.ret_type {
            Some(t) => match self.resolve_ty(t) {
                Ok(ty) => ty,
                Err(e) => return Err(e),
            },
            None => Type::Void,
        };
        let locals: Vec<VarStore> = Vec::new();
        assert(var_views(locals@) =~= Seq::empty());
        Ok(
            Function {
                name: func.name.lex.clone(),
                body: Expr::poison(),
                params,
                locals,
                ret_type,
                ast: func,
            },
        )
    }

    fn add(&mut self, f: Function) -> (r: FuncRef)
        ensures
            final(self).id == old(self).id,
            final(self).module.classes == old(self).module.classes,
            final(self).unit() == add_function(old(self).unit(), f@),
            r == (FuncRef { module: old(self).id, index: old(self).module.funcs@.len() as usize }),
    {
        let ghost views = func_views(self.module.funcs@);
        self.module.funcs.push(f);
        assert(func_views(self.module.funcs@) =~= views.push(f@));
        FuncRef::new_last(self.id, &self.module)
    }

    /// The second pass: declares the functions of the module itself.
    pub fn declare_functions(&mut self)
        requires
            old(self).module.wf(),
        ensures
            final(self).module.wf(),
            final(self).id == old(self).id,
            final(self).unit() == declare_functions_pass(old(self).unit(), old(self).id),
    {
        let mut funcs: Vec<ast::Function> = Vec::new();
        std::mem::swap(&mut self.module.ast.functions, &mut funcs);
        let ghost all = funcs@;
        let ghost start = self.unit();
        proof {
            assert(function_views(self.module.ast.functions@) =~= Seq::empty());
            assert(function_views(all.subrange(0, 0)) =~= Seq::empty());
        }
        for func in it: funcs
            invariant
                it.seq() == all,
                self.module.wf(),
                self.id == old(self).id,
                self.unit() == declared_functions(
                    start,
                    self.id,
                    function_views(all.subrange(0, it.index())),
                ),
        {
            let ghost k = it.index();
            let ghost before = self.unit();
            let ghost source = func@;
            proof {
                assert(function_views(all.subrange(0, k + 1)).drop_last() =~= function_views(
                    all.subrange(0, k),
                ));
                assert(function_views(all.subrange(0, k + 1)).last() == func@);
            }
            match self.module.try_reserve_name(&func.name.lex, func.name.start) {
                Err(e) => {
                    assert(self.module@.reserved_names =~= before.module.reserved_names);
                    self.report(e);
                },
                Ok(_) => {
                    match self.declare_function(func) {
                        Ok(f) => {
                            let _ = self.add(f);
                        },
                        Err(e) => {
                            self.report(e);
                        },
                    }
                },
            }
            assert(self.unit() == declare_free_function(before, self.id, source));
        }
        proof {
            assert(all.subrange(0, all.len() as int) =~= all);
        }
    }
}

/// Once the type of one parameter fails to resolve, the failure stays the
/// outcome however many parameters follow.
proof fn lemma_params_fail(names: Seq<Seq<u8>>, id: usize, params: Seq<SpecParameter>, i: int)
    requires
        0 <= i <= params.len(),
        resolved_params(names, id, params.subrange(0, i)) is Err,
    ensures
        resolved_params(names, id, params) == resolved_params(names, id, params.subrange(0, i)),
    decreases params.len() - i,
{
    if i < params.len() {
        assert(params.subrange(0, i + 1).drop_last() =~= params.subrange(0, i));
        lemma_params_fail(names, id, params, i + 1);
    } else {
        assert(params.subrange(0, i) =~= params);
    }
}

/// Declaring functions never frees a name.
pub proof fn lemma_names_stay_taken(u: Unit, id: usize, funcs: Seq<SpecFunction>, name: Seq<u8>)
    requires
        u.module.reserved_names.contains(name),
    ensures
        declared_functions(u, id, funcs).module.reserved_names.contains(name),
    decreases funcs.len(),
{
    if funcs.len() > 0 {
        lemma_names_stay_taken(u, id, funcs.drop_last(), name);
    }
}

/// A second function of the same name is reported once, as a name that is
/// taken, and is left out: whatever is declared between the two, declaring
/// the second adds that one failure and changes nothing else.
pub proof fn lemma_second_function_is_reported_once(
    u: Unit,
    id: usize,
    first: SpecFunction,
    between: Seq<SpecFunction>,
    second: SpecFunction,
)
    requires
        first.name.lex == second.name.lex,
    ensures
        ({
            let before = declared_functions(declare_free_function(u, id, first), id, between);
            declare_free_function(before, id, second) == add_error(
                before,
                taken(second.name.lex, second.name.start),
            )
        }),
{
    let after_first = declare_free_function(u, id, first);
    assert(after_first.module.reserved_names.contains(first.name.lex));
    lemma_names_stay_taken(after_first, id, between, first.name.lex);
}

/// A function whose name is the name of a class is reported once, as a name
/// that is taken, and is left out.
pub proof fn lemma_function_named_like_class_is_reported_once(
    u: Unit,
    id: usize,
    cls: SpecClass,
    between: Seq<SpecFunction>,
    func: SpecFunction,
)
    requires
        cls.name.lex == func.name.lex,
    ensures
        ({
            let before = declared_functions(declare_class(u, cls), id, between);
            declare_free_function(before, id, func) == add_error(
                before,
                taken(func.name.lex, func.name.start),
            )
        }),
{
    let after_class = declare_class(u, cls);
    assert(after_class.module.reserved_names.contains(cls.name.lex));
    lemma_names_stay_taken(after_class, id, between, cls.name.lex);
}

/// A second class of the same name is reported once, as a name that is
/// taken, and is left out.
pub proof fn lemma_second_class_is_reported_once(u: Unit, first: SpecClass, second: SpecClass)
    requires
        first.name.lex == second.name.lex,
    ensures
        declare_class(declare_class(u, first), second) == add_error(
            declare_class(u, first),
            taken(second.name.lex, second.name.start),
        ),
{
}

/// Declaring a function under a name that is free never says that a name is
/// taken.
pub proof fn lemma_fresh_function_is_not_taken(u: Unit, id: usize, func: SpecFunction)
    requires
        !u.module.reserved_names.contains(func.name.lex),
    ensures
        count_taken(declare_free_function(u, id, func).errors) == count_taken(u.errors),
{
    let r = reserve(u, func.name.lex);
    match declared(class_names(r.module.classes), id, func) {
        Ok(_) => {},
        Err(e) => {
            lemma_declared_fails_on_type(class_names(r.module.classes), id, func);
            lemma_count_taken_push(u.errors, e);
        },
    }
}

/// A type that fails to resolve fails as an unknown type.
pub proof fn lemma_resolve_fails_on_type(names: Seq<Seq<u8>>, id: usize, ty: crate::lexer::SpecToken)
    ensures
        resolve(names, id, ty) is Err ==> resolve(names, id, ty)->Err_0.kind is E200,
{
}

/// The parameters fail to resolve only on an unknown type.
pub proof fn lemma_params_fail_on_type(names: Seq<Seq<u8>>, id: usize, params: Seq<SpecParameter>)
    ensures
        resolved_params(names, id, params) is Err ==> resolved_params(
            names,
            id,
            params,
        )->Err_0.kind is E200,
    decreases params.len(),
{
    if params.len() > 0 {
        lemma_params_fail_on_type(names, id, params.drop_last());
        lemma_resolve_fails_on_type(names, id, params.last().ty);
    }
}

/// A function fails to be declared only on an unknown type.
pub proof fn lemma_declared_fails_on_type(names: Seq<Seq<u8>>, id: usize, func: SpecFunction)
    ensures
        declared(names, id, func) is Err ==> declared(names, id, func)->Err_0.kind is E200,
{
    lemma_params_fail_on_type(names, id, func.params);
    match func.ret_type {
        Some(t) => lemma_resolve_fails_on_type(names, id, t),
        None => {},
    }
}

/// Filling a class with members never says that a name is taken.
pub proof fn lemma_members_keep_taken(u: Unit, id: usize, c: int, members: Seq<SpecMember>)
    ensures
        count_taken(with_members(u, id, c, members).errors) == count_taken(u.errors),
    decreases members.len(),
{
    if members.len() > 0 {
        lemma_members_keep_taken(u, id, c, members.drop_last());
        let before = with_members(u, id, c, members.drop_last());
        let m = members.last();
        match resolve(class_names(before.module.classes), id, m.ty) {
            Err(e) => {
                lemma_resolve_fails_on_type(class_names(before.module.classes), id, m.ty);
                lemma_count_taken_push(before.errors, e);
            },
            Ok(_) => {},
        }
    }
}

/// Filling a class with functions never says that a name is taken.
pub proof fn lemma_functions_keep_taken(
    u: Unit,
    id: usize,
    c: int,
    funcs: Seq<SpecFunction>,
    is_static: bool,
)
    ensures
        count_taken(with_functions(u, id, c, funcs, is_static).errors) == count_taken(u.errors),
    decreases funcs.len(),
{
    if funcs.len() > 0 {
        lemma_functions_keep_taken(u, id, c, funcs.drop_last(), is_static);
        let before = with_functions(u, id, c, funcs.drop_last(), is_static);
        let names = class_names(before.module.classes);
        match declared(names, id, funcs.last()) {
            Err(e) => {
                lemma_declared_fails_on_type(names, id, funcs.last());
                lemma_count_taken_push(before.errors, e);
            },
            Ok(_) => {},
        }
    }
}

/// The third pass never says that a name is taken.
pub proof fn lemma_classes_keep_taken(u: Unit, id: usize, n: nat)
    ensures
        count_taken(generated_classes(u, id, n).errors) == count_taken(u.errors),
    decreases n,
{
    if n > 0 {
        lemma_classes_keep_taken(u, id, (n - 1) as nat);
        let before = generated_classes(u, id, (n - 1) as nat);
        let c = n - 1;
        let source = before.module.classes[c].ast;
        let s1 = with_members(drained(before, c), id, c, source.members);
        lemma_members_keep_taken(drained(before, c), id, c, source.members);
        let s2 = with_functions(s1, id, c, source.methods, false);
        lemma_functions_keep_taken(s1, id, c, source.methods, false);
        lemma_functions_keep_taken(s2, id, c, source.functions, true);
    }
}

/// The fourth pass never says that a name is taken.
pub proof fn lemma_bodies_keep_taken(u: Unit, ctx: Ctx, n: nat)
    ensures
        count_taken(generated_functions(u, ctx, n).errors) == count_taken(u.errors),
    decreases n,
{
    if !(n == 0 || n > u.module.funcs.len()) {
        lemma_bodies_keep_taken(u, ctx, (n - 1) as nat);
        let p = generated_functions(u, ctx, (n - 1) as nat);
        let f = p.module.funcs[n - 1];
        match f.ast.body {
            None => {},
            Some(body) => {
                lemma_bind_all_keeps_errors(
                    crate::compiler::module::expr_compiler::Scoped {
                        locals: Seq::empty(),
                        vars: Seq::empty(),
                        scopes: seq![Map::empty()],
                        errors: p.errors,
                    },
                    f.params,
                    f.params.len(),
                );
                lemma_compile_keeps_taken(ctx, initial(f.params, p.errors), body);
            },
        }
    }
}

/// Only the two passes that declare say that a name is taken: filling the
/// classes and compiling the bodies add no such failure.
pub proof fn lemma_only_declarations_report_taken(u: Unit, id: usize)
    ensures
        count_taken(compiled(u, id).errors) == count_taken(
            declare_functions_pass(declare_classes_pass(u), id).errors,
        ),
{
    let declared = declare_functions_pass(declare_classes_pass(u), id);
    let filled = generate_classes_pass(declared, id);
    lemma_classes_keep_taken(declared, id, declared.module.classes.len());
    lemma_bodies_keep_taken(
        filled,
        Ctx { id, sigs: sigs_of(filled.module.funcs) },
        filled.module.funcs.len(),
    );
}

} // verus!
