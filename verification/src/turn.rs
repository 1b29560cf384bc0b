//! What one move of a component yields: either the next outside step
//! together with the component as it then stands, or the component's
//! result.

use vstd::prelude::*;
use crate::command::{Request, RequestView};
use crate::error::{InstallError, InstallErrorView};

verus! {

/// One move of a component `M` whose result is a `T`.
#[derive(Debug, PartialEq, Eq)]
pub enum Turn<M, T> {
    /// The driver carries out the request and hands the answer to the
    /// component's `advance`.
    Ask(M, Request),
    /// The component has finished with this result.
    Done(Result<T, InstallError>),
}

/// A move as the contracts see it.
pub enum TurnView<M, T> {
    Ask(M, RequestView),
    Done(Result<T, InstallErrorView>),
}

impl<M: View, T: View> View for Turn<M, T> {
    type V = TurnView<M::V, T::V>;

    open spec fn view(&self) -> TurnView<M::V, T::V> {
        match self {
            Turn::Ask(machine, request) => TurnView::Ask(machine@, request@),
            Turn::Done(Ok(value)) => TurnView::Done(Ok(value@)),
            Turn::Done(Err(error)) => TurnView::Done(Err(error@)),
        }
    }
}

} // verus!
