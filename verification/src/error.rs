//! Diagnostics: what went wrong, and at which byte of the source.

use crate::compiler::ir::Type;
use crate::lexer::TKind;
use crate::smol_str::SmolStr;
use vstd::prelude::*;

verus! {

/// What went wrong.
#[allow(inconsistent_fields)]
pub enum ErrorKind {
    /// A token of kind `expected` was needed where one of kind `found` stands.
    E100 { expected: TKind, found: TKind },
    /// An expression was needed.
    E101,
    /// A declaration was needed.
    E102,
    /// No type has this name.
    E200(SmolStr),
    /// The module already holds a declaration of this name.
    E201(SmolStr),
    /// The two sides of a binary expression differ in type.
    E500 { left: Type, right: Type },
    /// The operator does not take operands of this type.
    E501 { op: SmolStr, ty: Type },
    /// The condition is no `bool`.
    E502,
    /// No variable or function has this name.
    E503 { name: SmolStr },
    /// A variable cannot hold a value of this type.
    E504 { ty: Type },
    /// What stands left of `=` cannot be assigned to.
    E505,
    /// What is called is no function.
    E506 { ty: Type },
    /// The call hands over `found` arguments where `expected` are declared.
    E507 { expected: usize, found: usize },
    /// The argument at `pos` is of type `found` where `expected` is declared.
    E508 { expected: Type, found: Type, pos: usize },
}

/// An `ErrorKind` as specifications see it.
#[allow(inconsistent_fields)]
pub enum SpecErrorKind {
    E100 { expected: TKind, found: TKind },
    E101,
    E102,
    E200(Seq<u8>),
    E201(Seq<u8>),
    E500 { left: Type, right: Type },
    E501 { op: Seq<u8>, ty: Type },
    E502,
    E503 { name: Seq<u8> },
    E504 { ty: Type },
    E505,
    E506 { ty: Type },
    E507 { expected: usize, found: usize },
    E508 { expected: Type, found: Type, pos: usize },
}

impl View for ErrorKind {
    type V = SpecErrorKind;

    open spec fn view(&self) -> SpecErrorKind {
        match *self {
            ErrorKind::E100 { expected, found } => SpecErrorKind::E100 { expected, found },
            ErrorKind::E101 => SpecErrorKind::E101,
            ErrorKind::E102 => SpecErrorKind::E102,
            ErrorKind::E200(name) => SpecErrorKind::E200(name@),
            ErrorKind::E201(name) => SpecErrorKind::E201(name@),
            ErrorKind::E500 { left, right } => SpecErrorKind::E500 { left, right },
            ErrorKind::E501 { op, ty } => SpecErrorKind::E501 { op: op@, ty },
            ErrorKind::E502 => SpecErrorKind::E502,
            ErrorKind::E503 { name } => SpecErrorKind::E503 { name: name@ },
            ErrorKind::E504 { ty } => SpecErrorKind::E504 { ty },
            ErrorKind::E505 => SpecErrorKind::E505,
            ErrorKind::E506 { ty } => SpecErrorKind::E506 { ty },
            ErrorKind::E507 { expected, found } => SpecErrorKind::E507 { expected, found },
            ErrorKind::E508 { expected, found, pos } => SpecErrorKind::E508 { expected, found, pos },
        }
    }
}

impl SpecErrorKind {
    /// The number by which the kind is known.
    pub open spec fn code(self) -> nat {
        match self {
            SpecErrorKind::E100 { .. } => 100,
            SpecErrorKind::E101 => 101,
            SpecErrorKind::E102 => 102,
            SpecErrorKind::E200(_) => 200,
            SpecErrorKind::E201(_) => 201,
            SpecErrorKind::E500 { .. } => 500,
            SpecErrorKind::E501 { .. } => 501,
            SpecErrorKind::E502 => 502,
            SpecErrorKind::E503 { .. } => 503,
            SpecErrorKind::E504 { .. } => 504,
            SpecErrorKind::E505 => 505,
            SpecErrorKind::E506 { .. } => 506,
            SpecErrorKind::E507 { .. } => 507,
            SpecErrorKind::E508 { .. } => 508,
        }
    }
}

impl ErrorKind {
    /// The number by which the kind is known.
    pub fn code(&self) -> (r: u16)
        ensures
            r == self@.code(),
    {
        match self {
            ErrorKind::E100 { .. } => 100,
            ErrorKind::E101 => 101,
            ErrorKind::E102 => 102,
            ErrorKind::E200(_) => 200,
            ErrorKind::E201(_) => 201,
            ErrorKind::E500 { .. } => 500,
            ErrorKind::E501 { .. } => 501,
            ErrorKind::E502 => 502,
            ErrorKind::E503 { .. } => 503,
            ErrorKind::E504 { .. } => 504,
            ErrorKind::E505 => 505,
            ErrorKind::E506 { .. } => 506,
            ErrorKind::E507 { .. } => 507,
            ErrorKind::E508 { .. } => 508,
        }
    }
}

/// A diagnostic as specifications see it.
pub struct SpecError {
    pub kind: SpecErrorKind,
    pub start: nat,
}

/// A diagnostic: what went wrong and the offset in the source where it did.
pub struct Error {
    pub kind: ErrorKind,
    pub start: usize,
}

impl View for Error {
    type V = SpecError;

    open spec fn view(&self) -> SpecError {
        SpecError { kind: self.kind@, start: self.start as nat }
    }
}

impl Error {
    pub fn new(start: usize, kind: ErrorKind) -> (r: Error)
        ensures
            r@ == (SpecError { kind: kind@, start: start as nat }),
    {
        Error { start, kind }
    }

    /// The number by which the kind of this diagnostic is known.
    pub fn code(&self) -> (r: u16)
        ensures
            r == self@.kind.code(),
    {
        self.kind.code()
    }
}

/// The views of the diagnostics of `errors`, in order.
pub open spec fn error_views(errors: Seq<Error>) -> Seq<SpecError> {
    Seq::new(errors.len(), |i: int| errors[i]@)
}

} // verus!
