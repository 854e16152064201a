use vstd::prelude::*;

verus! {

/// The one error kind a capability can report: an opaque failure carrying
/// a platform-style numeric code.
#[derive(Clone, Copy, Debug, PartialEq, Eq, Structural)]
pub struct CapError {
    pub code: i32,
}

impl CapError {
    /// Builds an error from a raw platform-style code.
    pub fn from_raw_code(code: i32) -> (e: CapError)
        ensures
            e.code == code,
    {
        CapError { code }
    }
}

/// The capability interface: one fallible operation, `bar`.
///
/// Each implementation chooses what `bar` may do through two spec
/// functions: `bar_ready` says on which states a call is allowed at all,
/// and `bar_post` relates the state before a call, the state after it,
/// and the result. An implementation may be nondeterministic, in which
/// case `bar_post` admits more than one outcome for the same state.
pub trait Foo {
    /// The states in which a call to `bar` is permitted.
    spec fn bar_ready(self) -> bool;

    /// The outcomes a call to `bar` may have: how the state after the
    /// call and the result relate to the state before it.
    spec fn bar_post(self, post: Self, r: Result<i32, CapError>) -> bool;

    /// Reports whether a call to `bar` is permitted in the current state.
    fn ready(&self) -> (b: bool)
        ensures
            b == self.bar_ready(),
    ;

    /// The fallible operation itself: yields a success value or an error.
    fn bar(&mut self) -> (r: Result<i32, CapError>)
        requires
            old(self).bar_ready(),
        ensures
            old(self).bar_post(*final(self), r),
    ;
}

} // verus!
