use vstd::prelude::*;

use crate::error::ErrorKind;

verus! {

#[verifier::external_type_specification]
#[verifier::external_body]
#[verifier::reject_recursive_types(T)]
pub struct ExRefCell<T: ?Sized>(std::cell::RefCell<T>);

#[verifier::external_type_specification]
#[verifier::external_body]
#[verifier::reject_recursive_types(T)]
pub struct ExMutex<T: ?Sized>(std::sync::Mutex<T>);

#[verifier::external_type_specification]
#[verifier::external_body]
#[verifier::reject_recursive_types(T)]
pub struct ExRwLock<T: ?Sized>(std::sync::RwLock<T>);

/// The identity of the finalizer that the host keeps beside an embedded
/// object. There is one finalizer for each native type that is embedded,
/// so the identity stands for the object's type.
#[derive(Debug, Clone, Copy, PartialEq, Eq, Structural)]
pub struct FinalizerTag {
    pub id: usize,
}

/// A native type whose values can be handed to the host and borrowed back.
pub trait Transfer: Sized {
    /// The name by which errors refer to the type.
    spec fn spec_display_name() -> Seq<char>;

    fn display_name() -> (r: &'static str)
        ensures
            r@ == Self::spec_display_name(),
    ;
}

impl<T> Transfer for std::cell::RefCell<T> {
    open spec fn spec_display_name() -> Seq<char> {
        "RefCell"@
    }

    fn display_name() -> (r: &'static str) {
        proof {
            reveal_strlit("RefCell");
        }
        "RefCell"
    }
}

impl<T> Transfer for std::sync::Mutex<T> {
    open spec fn spec_display_name() -> Seq<char> {
        "Mutex"@
    }

    fn display_name() -> (r: &'static str) {
        proof {
            reveal_strlit("Mutex");
        }
        "Mutex"
    }
}

impl<T> Transfer for std::sync::RwLock<T> {
    open spec fn spec_display_name() -> Seq<char> {
        "RwLock"@
    }

    fn display_name() -> (r: &'static str) {
        proof {
            reveal_strlit("RwLock");
        }
        "RwLock"
    }
}

impl<T> Transfer for std::rc::Rc<T> {
    open spec fn spec_display_name() -> Seq<char> {
        "Rc"@
    }

    fn display_name() -> (r: &'static str) {
        proof {
            reveal_strlit("Rc");
        }
        "Rc"
    }
}

impl<T> Transfer for std::sync::Arc<T> {
    open spec fn spec_display_name() -> Seq<char> {
        "Arc"@
    }

    fn display_name() -> (r: &'static str) {
        proof {
            reveal_strlit("Arc");
        }
        "Arc"
    }
}

/// Decides whether an embedded object may be borrowed back as the type whose
/// finalizer is `expected`, given the finalizer that the host reports for it
/// (`None` where it has none). Only an identical finalizer lets the pointer
/// be read; anything else, including the finalizer of any other type, is
/// `WrongTypeUserPtr` naming the type that was asked for.
pub fn check_finalizer(
    found: Option<FinalizerTag>,
    expected: FinalizerTag,
    expected_name: &'static str,
) -> (r: Result<(), ErrorKind>)
    ensures
        r == (if found == Some(expected) {
            Ok(())
        } else {
            Err(ErrorKind::WrongTypeUserPtr { expected: expected_name })
        }),
{
    match found {
        Some(f) if f.id == expected.id => Ok(()),
        _ => Err(ErrorKind::WrongTypeUserPtr { expected: expected_name }),
    }
}

/// `check_finalizer` for the type `T`, whose own finalizer is `expected`:
/// the error names `T`.
pub fn check_user_ptr<T: Transfer>(found: Option<FinalizerTag>, expected: FinalizerTag) -> (r:
    Result<(), ErrorKind>)
    ensures
        r is Ok <==> found == Some(expected),
        r matches Err(e) ==> (e matches ErrorKind::WrongTypeUserPtr { expected: name }
            && name@ == T::spec_display_name()),
{
    check_finalizer(found, expected, T::display_name())
}

} // verus!
