//! A fallible capability and a delegating wrapper around it.
//!
//! A capability exposes one fallible operation, `bar`; the wrapper `Baz`
//! owns one capability and forwards its own operation, `baz`, to it
//! unchanged. Two stand-in capabilities come with the crate: one that
//! draws its outcome at random and one that replays a programmed queue
//! of expectations.

mod capability;
mod doubles;
mod wrapper;

pub use capability::CapError;
pub use capability::Foo;
pub use doubles::Bar;
pub use doubles::Expectation;
pub use doubles::MockFoo;
pub use doubles::Outcome;
pub use doubles::RandomFoo;
pub use doubles::first_live;
pub use doubles::has_live;
pub use doubles::FAILURE_CODE;
pub use doubles::SUCCESS_THRESHOLD;
pub use doubles::SUCCESS_VALUE;
pub use doubles::lemma_consume_touches_one_expectation;
pub use doubles::lemma_custom_outcome_semantics;
pub use doubles::lemma_mock_deterministic;
pub use doubles::lemma_outcome_depends_on_own_queue;
pub use doubles::lemma_single_resolution;
pub use doubles::lemma_threshold_covers_both_outcomes;
pub use doubles::outcome_of_byte;
pub use doubles::outcome_of_byte_spec;
pub use wrapper::Baz;
pub use wrapper::BazT;
pub use wrapper::lemma_pass_through;
