//! Names of types, and what they stand for.

use crate::compiler::ir::ClassRef;
use crate::compiler::ir::SpecIrClass;
use crate::compiler::ir::SpecIrFunction;
use crate::compiler::ir::Type;
use crate::compiler::module::ModuleCompiler;
use crate::error::Error;
use crate::error::ErrorKind;
use crate::error::SpecError;
use crate::error::SpecErrorKind;
use crate::lexer::SpecToken;
use crate::parser::ast;
use crate::smol_str::SmolStr;
use vstd::prelude::*;

verus! {

/// The first place at which `name` stands in `names`, if it stands there.
pub open spec fn first_named(names: Seq<Seq<u8>>, name: Seq<u8>) -> Option<int>
    decreases names.len(),
{
    if names.len() == 0 {
        None
    } else {
        match first_named(names.drop_last(), name) {
            Some(i) => Some(i),
            None => if names.last() == name {
                Some(names.len() - 1)
            } else {
                None
            },
        }
    }
}

/// What is found among the first names stays found among all of them.
pub proof fn lemma_first_named_grows(names: Seq<Seq<u8>>, name: Seq<u8>, i: int)
    requires
        0 <= i <= names.len(),
        first_named(names.subrange(0, i), name) is Some,
    ensures
        first_named(names, name) == first_named(names.subrange(0, i), name),
    decreases names.len() - i,
{
    if i < names.len() {
        assert(names.subrange(0, i + 1).drop_last() =~= names.subrange(0, i));
        lemma_first_named_grows(names, name, i + 1);
    } else {
        assert(names.subrange(0, i) =~= names);
    }
}

/// The names of `classes`, in order.
pub open spec fn class_names(classes: Seq<SpecIrClass>) -> Seq<Seq<u8>> {
    Seq::new(classes.len(), |i: int| classes[i].name)
}

/// The names of `funcs`, in order.
pub open spec fn func_names(funcs: Seq<SpecIrFunction>) -> Seq<Seq<u8>> {
    Seq::new(funcs.len(), |i: int| funcs[i].name)
}

/// The name of the type of truth values.
pub open spec fn bool_name() -> Seq<u8> {
    seq![('b' as u8), ('o' as u8), ('o' as u8), ('l' as u8)]
}

/// The name of the type of integers.
pub open spec fn int_name() -> Seq<u8> {
    seq![('i' as u8), ('6' as u8), ('4' as u8)]
}

/// The name of the type of floating-point numbers.
pub open spec fn float_name() -> Seq<u8> {
    seq![('f' as u8), ('6' as u8), ('4' as u8)]
}

/// The type that the name `ty` stands for in module `id`, whose classes are
/// named `names`: one of the three primitive types, or the first class of
/// that name.
pub open spec fn resolve(names: Seq<Seq<u8>>, id: usize, ty: SpecToken) -> Result<Type, SpecError> {
    if ty.lex == bool_name() {
        Ok(Type::Bool)
    } else if ty.lex == int_name() {
        Ok(Type::I64)
    } else if ty.lex == float_name() {
        Ok(Type::F64)
    } else {
        match first_named(names, ty.lex) {
            Some(i) => Ok(Type::Class(ClassRef { module: id, index: i as usize })),
            None => Err(SpecError { kind: SpecErrorKind::E200(ty.lex), start: ty.start }),
        }
    }
}

/// What the outcome of resolving a type is to specifications.
pub open spec fn type_res_view(r: Result<Type, Error>) -> Result<Type, SpecError> {
    match r {
        Ok(t) => Ok(t),
        Err(e) => Err(e@),
    }
}

impl ModuleCompiler {
    /// The type that `ty` names.
    pub fn resolve_ty(&self, ty: &ast::Type) -> (r: Result<Type, Error>)
        ensures
            type_res_view(r) == resolve(class_names(self.module@.classes), self.id, ty@),
    {
        self.resolve_ty_name(&ty.name.lex, ty.name.start)
    }

    fn resolve_ty_name(&self, name: &SmolStr, position: usize) -> (r: Result<Type, Error>)
        ensures
            type_res_view(r) == resolve(
                class_names(self.module@.classes),
                self.id,
                SpecToken { kind: arbitrary(), lex: name@, start: position as nat },
            ),
    {
        let b = ['b' as u8, 'o' as u8, 'o' as u8, 'l' as u8];
        let i = ['i' as u8, '6' as u8, '4' as u8];
        let f = ['f' as u8, '6' as u8, '4' as u8];
        proof {
            assert(b@ =~= bool_name());
            assert(i@ =~= int_name());
            assert(f@ =~= float_name());
        }
        if name.eq_bytes(b.as_slice()) {
            return Ok(Type::Bool);
        }
        if name.eq_bytes(i.as_slice()) {
            return Ok(Type::I64);
        }
        if name.eq_bytes(f.as_slice()) {
            return Ok(Type::F64);
        }
        let ghost names = class_names(self.module@.classes);
        let n = self.module.classes.len();
        let mut k: usize = 0;
        while k < n
            invariant
                k <= n,
                n == self.module.classes@.len(),
                names == class_names(self.module@.classes),
                name@ != bool_name() && name@ != int_name() && name@ != float_name(),
                first_named(names.subrange(0, k as int), name@) is None,
            decreases n - k,
        {
            proof {
                assert(names.subrange(0, k + 1).drop_last() =~= names.subrange(0, k as int));
            }
            if self.module.classes[k].name.same(name) {
                proof {
                    assert(names[k as int] == self.module.classes@[k as int].name@);
                    assert(names.subrange(0, k + 1).last() == names[k as int]);
                    assert(first_named(names.subrange(0, k + 1), name@) == Some(k as int));
                    lemma_first_named_grows(names, name@, k + 1);
                }
                return Ok(Type::Class(ClassRef { module: self.id, index: k }));
            }
            proof {
                assert(names[k as int] == self.module.classes@[k as int].name@);
                assert(names.subrange(0, k + 1).last() == names[k as int]);
            }
            k += 1;
        }
        proof {
            assert(names.subrange(0, n as int) =~= names);
        }
        Err(Error::new(position, ErrorKind::E200(name.clone())))
    }
}

} // verus!
