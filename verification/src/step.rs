//! One step of an operation that runs several `adb` commands in turn: either
//! run another command and go on in a new state, or finish with a result.

use vstd::prelude::*;
use crate::command::CommandResult;
use crate::text::views;

verus! {

/// What an operation does next: run `adb` with the given arguments and then
/// continue from the given state, or finish with the given result.
pub enum Step<T> {
    Run(T, Vec<String>),
    Finish(CommandResult),
}

/// A step, with the state, the arguments and the result by their views.
pub enum Move<V> {
    Run(V, Seq<Seq<char>>),
    Finish((bool, Seq<char>)),
}

impl<T: View> View for Step<T> {
    type V = Move<T::V>;

    open spec fn view(&self) -> Move<T::V> {
        match self {
            Step::Run(t, a) => Move::Run(t@, views(a@)),
            Step::Finish(r) => Move::Finish(r@),
        }
    }
}

} // verus!
