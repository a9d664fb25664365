use vstd::prelude::*;

verus! {

/// What an incoming event carries.
#[derive(Clone, Debug, PartialEq, Eq)]
pub struct PayLoadContent {
    pub text: String,
}

/// The payload of an incoming event: its kind and its content.
#[derive(Clone, Debug, PartialEq, Eq)]
pub struct PayLoad {
    pub content_type: String,
    pub content: PayLoadContent,
}

/// An event received from the user.
#[derive(Clone, Debug, PartialEq, Eq)]
pub struct Event {
    pub payload: PayLoad,
}

/// The conversation context a script runs in.
#[derive(Clone, Debug, Default, PartialEq, Eq)]
pub struct JsContext {}

} // verus!
