//! Input and output shapes of the event handler.

use vstd::prelude::*;

verus! {

/// The inbound greeting event. All three fields are required to be non-empty
/// before the event may be persisted; the validator enforces that.
#[derive(Clone, Debug)]
pub struct CustomEvent {
    pub email: String,
    pub first_name: String,
    pub last_name: String,
}

impl CustomEvent {
    pub fn new(email: &str, first_name: &str, last_name: &str) -> (r: CustomEvent)
        ensures
            r.email@ == email@,
            r.first_name@ == first_name@,
            r.last_name@ == last_name@,
    {
        CustomEvent {
            email: email.to_owned(),
            first_name: first_name.to_owned(),
            last_name: last_name.to_owned(),
        }
    }
}

/// The outbound result on the success path: a single greeting message.
#[derive(Clone, Debug)]
pub struct CustomOutput {
    pub message: String,
}

impl CustomOutput {
    pub fn new(message: String) -> (r: CustomOutput)
        ensures
            r.message@ == message@,
    {
        CustomOutput { message }
    }
}

} // verus!
