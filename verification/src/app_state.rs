//! The state records of the example application built on this engine: a
//! component-local state value and the process-global state.

use vstd::prelude::*;

verus! {

/// State owned by the example root component.
#[derive(Clone)]
pub struct AppComponentState {
    pub content: String,
}

impl AppComponentState {
    /// The initial component state.
    pub fn new() -> (r: AppComponentState)
        ensures
            r.content@ == "Hello, App Component!"@,
    {
        AppComponentState { content: "Hello, App Component!".to_owned() }
    }
}

/// State shared by the whole example application.
pub struct AppGlobalState {
    pub message: String,
}

impl AppGlobalState {
    /// A global state carrying the given message.
    pub fn new(message: String) -> (r: AppGlobalState)
        ensures
            r.message@ == message@,
    {
        AppGlobalState { message }
    }
}

} // verus!
