//! The shapes in which the steps of the operations answer.

use vstd::prelude::*;

verus! {

/// The answer of a step that may have to be taken again.
#[derive(Clone, Copy, Debug, PartialEq, Eq)]
pub enum Step<V> {
    /// Nothing yet: the caller waits to be woken and steps again.
    Pending,
    /// The operation is over, with this result.
    Done(V),
}

/// The answer of a step, and what the caller owes the connection after it.
#[derive(Clone, Copy, Debug, PartialEq, Eq)]
pub struct Outcome<V> {
    /// The answer.
    pub value: V,
    /// Whether to wake the engine, which may then hand over the next request.
    pub wake: bool,
    /// Whether the step closed the connection, so that its cancel token
    /// fires.
    pub closed: bool,
}

} // verus!
