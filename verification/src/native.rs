//! The native calls that read and write parameters: which function of the
//! engine's C interface serves which kind of parameter, and what a call is
//! made with.

use vstd::prelude::*;

verus! {

/// The kinds of value that a parameter can have. Every parameter is of
/// exactly one kind.
#[derive(Clone, Copy, PartialEq, Eq, Debug, Structural)]
pub enum Category {
    /// 32-bit signed integers.
    Int,
    /// 64-bit floating-point numbers.
    Double,
    /// Text of bounded length.
    Str,
}

/// The functions of the engine's C interface that read and write the
/// parameters of an environment.
#[derive(Clone, Copy, PartialEq, Eq, Debug, Structural)]
pub enum NativeFn {
    /// `GRBgetintparam`
    GetIntParam,
    /// `GRBsetintparam`
    SetIntParam,
    /// `GRBgetdblparam`
    GetDblParam,
    /// `GRBsetdblparam`
    SetDblParam,
    /// `GRBgetstrparam`
    GetStrParam,
    /// `GRBsetstrparam`
    SetStrParam,
}

impl Category {
    /// The function that reads a parameter of this kind.
    pub open spec fn spec_read_fn(self) -> NativeFn {
        match self {
            Category::Int => NativeFn::GetIntParam,
            Category::Double => NativeFn::GetDblParam,
            Category::Str => NativeFn::GetStrParam,
        }
    }

    /// The function that writes a parameter of this kind.
    pub open spec fn spec_write_fn(self) -> NativeFn {
        match self {
            Category::Int => NativeFn::SetIntParam,
            Category::Double => NativeFn::SetDblParam,
            Category::Str => NativeFn::SetStrParam,
        }
    }

    /// The function that reads a parameter of this kind.
    #[verifier::when_used_as_spec(spec_read_fn)]
    pub fn read_fn(self) -> (f: NativeFn)
        ensures
            f == self.spec_read_fn(),
    {
        match self {
            Category::Int => NativeFn::GetIntParam,
            Category::Double => NativeFn::GetDblParam,
            Category::Str => NativeFn::GetStrParam,
        }
    }

    /// The function that writes a parameter of this kind.
    #[verifier::when_used_as_spec(spec_write_fn)]
    pub fn write_fn(self) -> (f: NativeFn)
        ensures
            f == self.spec_write_fn(),
    {
        match self {
            Category::Int => NativeFn::SetIntParam,
            Category::Double => NativeFn::SetDblParam,
            Category::Str => NativeFn::SetStrParam,
        }
    }
}

impl NativeFn {
    /// The kind of parameter that the function serves.
    pub open spec fn spec_category(self) -> Category {
        match self {
            NativeFn::GetIntParam | NativeFn::SetIntParam => Category::Int,
            NativeFn::GetDblParam | NativeFn::SetDblParam => Category::Double,
            NativeFn::GetStrParam | NativeFn::SetStrParam => Category::Str,
        }
    }

    /// True for the functions that read a parameter, false for those that
    /// write one.
    pub open spec fn spec_is_read(self) -> bool {
        self == NativeFn::GetIntParam || self == NativeFn::GetDblParam || self
            == NativeFn::GetStrParam
    }

    /// The kind of parameter that the function serves.
    #[verifier::when_used_as_spec(spec_category)]
    pub fn category(self) -> (c: Category)
        ensures
            c == self.spec_category(),
    {
        match self {
            NativeFn::GetIntParam | NativeFn::SetIntParam => Category::Int,
            NativeFn::GetDblParam | NativeFn::SetDblParam => Category::Double,
            NativeFn::GetStrParam | NativeFn::SetStrParam => Category::Str,
        }
    }

    /// True for the functions that read a parameter, false for those that
    /// write one.
    #[verifier::when_used_as_spec(spec_is_read)]
    pub fn is_read(self) -> (b: bool)
        ensures
            b == self.spec_is_read(),
    {
        match self {
            NativeFn::GetIntParam | NativeFn::GetDblParam | NativeFn::GetStrParam => true,
            NativeFn::SetIntParam | NativeFn::SetDblParam | NativeFn::SetStrParam => false,
        }
    }
}

/// Every kind of parameter has a read function and a write function of its
/// own, and every function is the one or the other of exactly one kind.
pub proof fn lemma_dispatch_is_exact(c: Category, f: NativeFn)
    ensures
        c.read_fn().category() == c,
        c.write_fn().category() == c,
        c.read_fn().is_read(),
        !c.write_fn().is_read(),
        f.is_read() ==> f.category().read_fn() == f,
        !f.is_read() ==> f.category().write_fn() == f,
{
}

/// A read that is ready to be made.
#[derive(Debug)]
pub struct ReadCall<S> {
    /// The function to call.
    pub function: NativeFn,
    /// The parameter's name, as a C string.
    pub name: Vec<u8>,
    /// The slot that the function is to fill, holding its initial value.
    pub slot: S,
}

/// A write that is ready to be made.
#[derive(Debug)]
pub struct WriteCall<A> {
    /// The function to call.
    pub function: NativeFn,
    /// The parameter's name, as a C string.
    pub name: Vec<u8>,
    /// The value that the function is handed.
    pub value: A,
}

} // verus!
