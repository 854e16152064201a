use vstd::prelude::*;

use crate::capability::CapError;
use crate::capability::Foo;

verus! {

/// The interface of a delegating component: one fallible operation,
/// `baz`, described the same way the capability interface describes
/// `bar`, by a readiness condition and an outcome relation.
pub trait BazT {
    /// The states in which a call to `baz` is permitted.
    spec fn baz_ready(self) -> bool;

    /// The outcomes a call to `baz` may have.
    spec fn baz_post(self, post: Self, r: Result<i32, CapError>) -> bool;

    /// Reports whether a call to `baz` is permitted in the current state.
    fn ready(&self) -> (b: bool)
        ensures
            b == self.baz_ready(),
    ;

    /// The forwarded fallible operation.
    fn baz(&mut self) -> (r: Result<i32, CapError>)
        requires
            old(self).baz_ready(),
        ensures
            old(self).baz_post(*final(self), r),
    ;
}

/// The delegating wrapper: owns exactly one capability and forwards
/// `baz` to the capability's `bar` unchanged.
pub struct Baz<F> {
    foo: F,
}

impl<F> Baz<F> {
    /// The one capability this wrapper owns; the wrapper has no state
    /// beyond it.
    pub closed spec fn capability(self) -> F {
        self.foo
    }
}

impl<F> Baz<F> where F: Foo {
    /// Takes ownership of one capability; construction cannot fail.
    pub fn new(foo: F) -> (b: Baz<F>)
        ensures
            b.capability() == foo,
    {
        Baz { foo }
    }
}

impl<F> BazT for Baz<F> where F: Foo {
    /// `baz` is permitted exactly when the owned capability permits `bar`.
    open spec fn baz_ready(self) -> bool {
        self.capability().bar_ready()
    }

    /// `baz` admits exactly the outcomes the owned capability admits for
    /// `bar`: pure pass-through, no transformation and no new errors.
    open spec fn baz_post(self, post: Self, r: Result<i32, CapError>) -> bool {
        self.capability().bar_post(post.capability(), r)
    }

    fn ready(&self) -> (b: bool) {
        self.foo.ready()
    }

    fn baz(&mut self) -> (r: Result<i32, CapError>) {
        self.foo.bar()
    }
}

/// Pass-through law: a wrapper's operation is permitted exactly when the
/// owned capability's is, and it admits exactly the outcomes — success
/// value, error, and state change of the capability — that calling the
/// capability directly would admit.
pub proof fn lemma_pass_through<F: Foo>(pre: Baz<F>, post: Baz<F>, r: Result<i32, CapError>)
    ensures
        pre.baz_ready() <==> pre.capability().bar_ready(),
        pre.baz_post(post, r) <==> pre.capability().bar_post(post.capability(), r),
{
}

} // verus!
