//! The model of `webrtc::Environment`.

use vstd::prelude::*;

use crate::NativePtr;

verus! {

/// The native environment object: the root dependency most factories take.
/// Creating one never fails except under allocation failure, which the
/// native layer treats as unrecoverable.
pub struct Environment {
    created: bool,
}

impl Environment {
    /// Creates a native environment.
    pub fn new() -> (r: Environment)
        ensures
            r.allocated(),
    {
        Environment { created: true }
    }

    /// Whether the environment is allocated; it stays allocated for the
    /// value's whole lifetime.
    pub closed spec fn allocated(self) -> bool {
        self.created
    }

    /// The native address of the environment; never null.
    pub fn as_ptr(&self) -> (r: NativePtr)
        ensures
            r == (NativePtr { addr: 1 }),
    {
        NativePtr { addr: 1 }
    }

    /// A borrow-only view, for calls that take the environment without
    /// owning it.
    pub fn as_ref(&self) -> (r: EnvironmentRef<'_>)
        ensures
            r.target.allocated() == self.allocated(),
    {
        EnvironmentRef { target: self }
    }
}

impl Default for Environment {
    fn default() -> (r: Environment)
        ensures
            r.allocated(),
    {
        Environment::new()
    }
}

/// A borrowed view of a native environment, valid only within the borrow.
pub struct EnvironmentRef<'a> {
    pub target: &'a Environment,
}

impl<'a> EnvironmentRef<'a> {
    /// Wraps a borrowed environment.
    pub fn from_raw(target: &'a Environment) -> (r: EnvironmentRef<'a>)
        ensures
            r.target.allocated() == target.allocated(),
    {
        EnvironmentRef { target }
    }

    /// The native address of the environment; never null.
    pub fn as_ptr(&self) -> (r: NativePtr)
        ensures
            r == (NativePtr { addr: 1 }),
    {
        NativePtr { addr: 1 }
    }
}

} // verus!
