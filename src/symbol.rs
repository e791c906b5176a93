use vstd::prelude::*;

verus! {

/// The two host symbols that stand for native values: `nil` for absence,
/// falsehood and unit, `t` for truth.
#[derive(Debug, Clone, Copy, PartialEq, Eq, Structural)]
pub enum Symbol {
    Nil,
    T,
}

impl Symbol {
    /// The name under which the host interns the symbol.
    pub fn name(&self) -> (r: &'static str)
        ensures
            *self == Symbol::Nil ==> r@ == "nil"@,
            *self == Symbol::T ==> r@ == "t"@,
    {
        proof {
            reveal_strlit("nil");
            reveal_strlit("t");
        }
        match self {
            Symbol::Nil => "nil",
            Symbol::T => "t",
        }
    }
}

/// The symbol that a native boolean becomes: `t` for true, `nil` for false.
pub fn bool_symbol(b: bool) -> (r: Symbol)
    ensures
        r == (if b { Symbol::T } else { Symbol::Nil }),
{
    if b {
        Symbol::T
    } else {
        Symbol::Nil
    }
}

/// The symbol that the native unit value becomes.
pub fn unit_symbol() -> (r: Symbol)
    ensures
        r == Symbol::Nil,
{
    Symbol::Nil
}

/// How a native optional value is handed to the host: its content is
/// converted as it stands, and absence becomes a symbol.
#[derive(Debug)]
pub enum Lowering<T> {
    Convert(T),
    Intern(Symbol),
}

/// Lowers an optional value: `None` becomes the absence symbol `nil`,
/// whatever the content type; `Some(v)` is `v` converted on its own.
pub fn lower_option<T>(o: Option<T>) -> (r: Lowering<T>)
    ensures
        match o {
            None => r == Lowering::<T>::Intern(Symbol::Nil),
            Some(v) => r == Lowering::Convert(v),
        },
{
    match o {
        None => Lowering::Intern(Symbol::Nil),
        Some(v) => Lowering::Convert(v),
    }
}

/// A decoded value, or the error that decoding gave, as an optional value.
pub open spec fn present<T, E>(x: Result<T, E>) -> Result<Option<T>, E> {
    match x {
        Ok(v) => Ok(Some(v)),
        Err(e) => Err(e),
    }
}

/// Reads a host value as an optional native value: the absence symbol is
/// `None` and `decode` is not called; any other value is what `decode`
/// makes of it, in `Some`, or the error that it gave.
pub fn lift_option<T, E, F: FnOnce() -> Result<T, E>>(is_nil: bool, decode: F) -> (r: Result<
    Option<T>,
    E,
>)
    requires
        !is_nil ==> decode.requires(()),
    ensures
        is_nil ==> r == Ok::<Option<T>, E>(None),
        !is_nil ==> exists|x: Result<T, E>| decode.ensures((), x) && r == present(x),
{
    if is_nil {
        Ok(None)
    } else {
        let x = decode();
        let r = match x {
            Ok(v) => Ok(Some(v)),
            Err(e) => Err(e),
        };
        assert(decode.ensures((), x) && r == present(x));
        r
    }
}

} // verus!
