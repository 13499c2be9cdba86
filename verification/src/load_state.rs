//! Data that is being fetched.

use vstd::prelude::*;

verus! {

/// Data that is on its way, has come, or could not be had.
#[derive(Debug)]
pub enum LoadState<T> {
    Loading,
    Ready(T),
    Error(String),
}

/// The value of a [`LoadState`].
#[verifier::ext_equal]
pub enum LoadStateView<V> {
    Loading,
    Ready(V),
    Error(Seq<char>),
}

impl<T: DeepView> DeepView for LoadState<T> {
    type V = LoadStateView<T::V>;

    open spec fn deep_view(&self) -> LoadStateView<T::V> {
        match self {
            LoadState::Loading => LoadStateView::Loading,
            LoadState::Ready(data) => LoadStateView::Ready(data.deep_view()),
            LoadState::Error(message) => LoadStateView::Error(message@),
        }
    }
}

/// The outcome of a fetch: the data, or the message of what went wrong.
pub open spec fn fetched<T: DeepView>(outcome: Result<T, String>) -> LoadStateView<T::V> {
    match outcome {
        Ok(data) => LoadStateView::Ready(data.deep_view()),
        Err(message) => LoadStateView::Error(message@),
    }
}

impl<T: DeepView> LoadState<T> {
    /// The outcome of a fetch.
    pub fn from_result(outcome: Result<T, String>) -> (r: Self)
        ensures
            r.deep_view() == fetched(outcome),
    {
        match outcome {
            Ok(data) => LoadState::Ready(data),
            Err(message) => LoadState::Error(message),
        }
    }
}

} // verus!
