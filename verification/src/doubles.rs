use vstd::prelude::*;
use vstd::pervasive::VecAdditionalExecFns;

use crate::capability::CapError;
use crate::capability::Foo;

verus! {

/// A random draw above this threshold counts as success.
pub const SUCCESS_THRESHOLD: u8 = 100;

/// The fixed value every random success carries.
pub const SUCCESS_VALUE: i32 = 1;

/// The fixed platform-style code every stand-in failure carries.
pub const FAILURE_CODE: i32 = 12;

/// How one drawn byte is mapped to an outcome: strictly above the
/// threshold it is the fixed success, otherwise the fixed error.
pub open spec fn outcome_of_byte_spec(x: u8) -> Result<i32, CapError> {
    if x > SUCCESS_THRESHOLD {
        Ok(SUCCESS_VALUE)
    } else {
        Err(CapError { code: FAILURE_CODE })
    }
}

/// Maps one drawn byte to the outcome the randomized capability reports.
pub fn outcome_of_byte(x: u8) -> (r: Result<i32, CapError>)
    ensures
        r == outcome_of_byte_spec(x),
{
    if x > SUCCESS_THRESHOLD {
        Ok(SUCCESS_VALUE)
    } else {
        Err(CapError { code: FAILURE_CODE })
    }
}

/// Relies on rand::random: draws one byte uniformly at random; nothing
/// is promised of its value.
#[verifier::external_body]
fn random_byte() -> u8 {
    rand::random::<u8>()
}

/// A stateless stand-in capability that draws a fresh random byte on
/// every call and maps it to an outcome through the fixed threshold.
pub struct RandomFoo {}

impl Foo for RandomFoo {
    /// A call is always permitted: the double holds no expectations.
    open spec fn bar_ready(self) -> bool {
        true
    }

    /// Every outcome is the fixed success or the fixed error, and the
    /// double stays stateless; which of the two comes is left open,
    /// since it depends on the random draw.
    open spec fn bar_post(self, post: Self, r: Result<i32, CapError>) -> bool {
        &&& post == self
        &&& (r == Ok::<i32, CapError>(SUCCESS_VALUE) || r == Err::<i32, CapError>(
            CapError { code: FAILURE_CODE },
        ))
    }

    fn ready(&self) -> (b: bool) {
        true
    }

    fn bar(&mut self) -> (r: Result<i32, CapError>) {
        let x = random_byte();
        outcome_of_byte(x)
    }
}

/// A caller-defined deferred outcome: it stores one value and, when
/// resolved, succeeds with that value when it is non-negative and fails
/// with the fixed error code when it is negative.
#[derive(Clone, Copy, Debug, PartialEq, Eq, Structural)]
pub struct Bar {
    pub value: i32,
}

impl Bar {
    /// What this deferred outcome resolves to, as a function of the
    /// stored value alone.
    pub open spec fn resolution(self) -> Result<i32, CapError> {
        if self.value >= 0 {
            Ok(self.value)
        } else {
            Err(CapError { code: FAILURE_CODE })
        }
    }

    /// Resolves the deferred outcome.
    pub fn resolve(&self) -> (r: Result<i32, CapError>)
        ensures
            r == self.resolution(),
    {
        if self.value >= 0 {
            Ok(self.value)
        } else {
            Err(CapError { code: FAILURE_CODE })
        }
    }
}

/// What a programmed expectation replies with: either a literal result,
/// ready as recorded, or a deferred outcome resolved at call time.
#[derive(Clone, Copy, Debug, PartialEq, Eq)]
pub enum Outcome {
    Ready(Result<i32, CapError>),
    Custom(Bar),
}

impl Outcome {
    /// The result this reply stands for.
    pub open spec fn resolution(self) -> Result<i32, CapError> {
        match self {
            Outcome::Ready(r) => r,
            Outcome::Custom(b) => b.resolution(),
        }
    }

    /// Produces the result this reply stands for.
    pub fn resolve(&self) -> (r: Result<i32, CapError>)
        ensures
            r == self.resolution(),
    {
        match self {
            Outcome::Ready(r) => *r,
            Outcome::Custom(b) => b.resolve(),
        }
    }
}

/// One programmed rule: how many calls it may still answer and what it
/// replies with. Once recorded, only the counter ever changes, and it
/// only decreases.
#[derive(Clone, Copy, Debug, PartialEq, Eq)]
pub struct Expectation {
    pub remaining: usize,
    pub outcome: Outcome,
}

impl Expectation {
    /// An expectation that answers `times` calls with `outcome`.
    pub fn new(times: usize, outcome: Outcome) -> (e: Expectation)
        ensures
            e == (Expectation { remaining: times, outcome }),
    {
        Expectation { remaining: times, outcome }
    }

    /// This expectation after answering one call: the same reply, one
    /// fewer call left.
    pub open spec fn consumed(self) -> Expectation
        recommends
            self.remaining > 0,
    {
        Expectation { remaining: (self.remaining - 1) as usize, outcome: self.outcome }
    }
}

/// The index of the first expectation at or after `i` that can still
/// answer a call, or the queue's length when none can.
pub open spec fn first_live(q: Seq<Expectation>, i: int) -> int
    decreases q.len() - i when 0 <= i <= q.len()
{
    if i < 0 || i >= q.len() {
        q.len() as int
    } else if q[i].remaining > 0 {
        i
    } else {
        first_live(q, i + 1)
    }
}

/// Whether some expectation in the queue can still answer a call.
pub open spec fn has_live(q: Seq<Expectation>) -> bool {
    first_live(q, 0) < q.len()
}

/// A programmable stand-in capability: an ordered queue of recorded
/// expectations, consumed in registration order, first unexhausted
/// expectation first. It never fabricates an unconfigured result: a
/// call is permitted only while some expectation can still answer.
pub struct MockFoo {
    queue: Vec<Expectation>,
}

impl MockFoo {
    /// The recorded expectations, in registration order.
    pub closed spec fn expectations(self) -> Seq<Expectation> {
        self.queue@
    }

    /// A fresh double with nothing programmed.
    pub fn new() -> (m: MockFoo)
        ensures
            m.expectations() == Seq::<Expectation>::empty(),
    {
        MockFoo { queue: Vec::new() }
    }

    /// Records one more expectation at the end of the queue; the ones
    /// already recorded are untouched.
    pub fn expect_bar(&mut self, e: Expectation)
        ensures
            final(self).expectations() == old(self).expectations().push(e),
    {
        self.queue.push(e);
    }
}

impl Foo for MockFoo {
    /// A call is permitted only while an expectation can still answer.
    open spec fn bar_ready(self) -> bool {
        has_live(self.expectations())
    }

    /// The first expectation that can still answer determines the call
    /// completely: the result is that expectation's reply, its counter
    /// goes down by one, and every other expectation is untouched.
    open spec fn bar_post(self, post: Self, r: Result<i32, CapError>) -> bool {
        let q = self.expectations();
        let i = first_live(q, 0);
        &&& 0 <= i < q.len()
        &&& r == q[i].outcome.resolution()
        &&& post.expectations() == q.update(i, q[i].consumed())
    }

    fn ready(&self) -> (b: bool) {
        let n = self.queue.len();
        let mut i: usize = 0;
        while i < n
            invariant
                n == self.queue.len(),
                i <= n,
                first_live(self.queue@, 0) == first_live(self.queue@, i as int),
            decreases n - i,
        {
            if self.queue[i].remaining > 0 {
                return true;
            }
            i = i + 1;
        }
        false
    }

    fn bar(&mut self) -> (r: Result<i32, CapError>) {
        let n = self.queue.len();
        let mut i: usize = 0;
        while i < n
            invariant
                old(self).bar_ready(),
                self.queue@ == old(self).queue@,
                n == self.queue.len(),
                i <= n,
                first_live(self.queue@, 0) == first_live(self.queue@, i as int),
            decreases n - i,
        {
            let e = self.queue[i];
            if e.remaining > 0 {
                self.queue.set(i, Expectation { remaining: e.remaining - 1, outcome: e.outcome });
                return e.outcome.resolve();
            }
            i = i + 1;
        }
        proof {
            assert(first_live(self.queue@, n as int) == n);
        }
        vstd::pervasive::unreached()
    }
}

/// Programmable-double determinism: from one starting state, a call to
/// the programmable double has exactly one admissible outcome — any two
/// outcomes the contract admits agree on the result and on the queue
/// left behind. The outcome depends on that double's own queue alone.
pub proof fn lemma_mock_deterministic(
    m: MockFoo,
    p1: MockFoo,
    p2: MockFoo,
    r1: Result<i32, CapError>,
    r2: Result<i32, CapError>,
)
    requires
        m.bar_post(p1, r1),
        m.bar_post(p2, r2),
    ensures
        r1 == r2,
        p1.expectations() == p2.expectations(),
{
}

/// A programmed call leaves later expectations untouched: answering one
/// call changes nothing but the answering expectation's own counter,
/// which goes down by one.
pub proof fn lemma_consume_touches_one_expectation(m: MockFoo, post: MockFoo, r: Result<i32, CapError>)
    requires
        m.bar_post(post, r),
    ensures
        post.expectations().len() == m.expectations().len(),
        forall|j: int|
            0 <= j < m.expectations().len() && j != first_live(m.expectations(), 0)
                ==> post.expectations()[j] == m.expectations()[j],
        post.expectations()[first_live(m.expectations(), 0)]
            == m.expectations()[first_live(m.expectations(), 0)].consumed(),
{
}

/// Independence: what a programmable double may do is a function of its
/// own recorded queue alone. Two doubles with equal queues admit the
/// same outcomes, so a call on one capability instance can neither
/// observe nor disturb another instance's state.
pub proof fn lemma_outcome_depends_on_own_queue(
    m1: MockFoo,
    m2: MockFoo,
    p1: MockFoo,
    p2: MockFoo,
    r: Result<i32, CapError>,
)
    requires
        m1.expectations() == m2.expectations(),
        p1.expectations() == p2.expectations(),
    ensures
        m1.bar_post(p1, r) == m2.bar_post(p2, r),
        m1.bar_ready() == m2.bar_ready(),
{
}

/// Deferred-outcome semantics: a custom outcome holding value `v`
/// resolves to success `v` when `v` is non-negative and to the fixed
/// error code when `v` is negative.
pub proof fn lemma_custom_outcome_semantics(b: Bar)
    ensures
        b.value >= 0 ==> b.resolution() == Ok::<i32, CapError>(b.value),
        b.value < 0 ==> b.resolution() == Err::<i32, CapError>(CapError { code: FAILURE_CODE }),
{
}

/// No duplicate resolution: a deferred outcome's resolution is a
/// function of its stored state, so two observations of the same
/// outcome always agree.
pub proof fn lemma_single_resolution(b: Bar, r1: Result<i32, CapError>, r2: Result<i32, CapError>)
    requires
        r1 == b.resolution(),
        r2 == b.resolution(),
    ensures
        r1 == r2,
{
}

/// Both branches of the randomized double are reachable: some byte maps
/// to the fixed success and some byte maps to the fixed error, so over
/// enough independent draws both outcomes occur.
pub proof fn lemma_threshold_covers_both_outcomes()
    ensures
        outcome_of_byte_spec(101) == Ok::<i32, CapError>(SUCCESS_VALUE),
        outcome_of_byte_spec(100) == Err::<i32, CapError>(CapError { code: FAILURE_CODE }),
{
}

} // verus!
