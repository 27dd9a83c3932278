//! Orchestration of the pipeline: validate the event, resolve the target
//! location, plan the store client and the record to write, and map the
//! outcome of the persist call to a greeting or a handler-level error.
//!
//! The persist call itself is a single blocking network operation performed
//! by the surrounding program, between `prepare` and `complete`.

use vstd::prelude::*;
use vstd::string::StringExecFns;
use crate::errors::{HelloError, ValidationError};
use crate::model::{CustomEvent, CustomOutput};
use crate::region::{determine_region, resolved_location};
use crate::store::{
    client_plan, failure_description, planned_client, record_attributes, ClientPlan,
    StoreFailure, StoreRecord,
};

verus! {

/// Whether every required field of the event is present.
pub open spec fn valid_event(e: CustomEvent) -> bool {
    e.email@.len() > 0 && e.first_name@.len() > 0 && e.last_name@.len() > 0
}

/// The first violated requirement, in the order email, first name, last
/// name; `None` when the event is valid.
pub open spec fn first_violation(e: CustomEvent) -> Option<ValidationError> {
    if e.email@.len() == 0 {
        Some(ValidationError::EmptyEmail)
    } else if e.first_name@.len() == 0 {
        Some(ValidationError::EmptyFirstName)
    } else if e.last_name@.len() == 0 {
        Some(ValidationError::EmptyLastName)
    } else {
        None
    }
}

/// Checks the required fields of the event, in order, reporting only the
/// first violation; a valid event is returned unchanged.
pub fn validate<'a>(e: &'a CustomEvent) -> (r: Result<&'a CustomEvent, ValidationError>)
    ensures
        match r {
            Ok(v) => first_violation(*e) is None && v == e,
            Err(v) => first_violation(*e) == Some(v),
        },
        r is Ok <==> valid_event(*e),
{
    if e.email.as_str().is_empty() {
        Err(ValidationError::EmptyEmail)
    } else if e.first_name.as_str().is_empty() {
        Err(ValidationError::EmptyFirstName)
    } else if e.last_name.as_str().is_empty() {
        Err(ValidationError::EmptyLastName)
    } else {
        Ok(e)
    }
}

/// Everything the persist call needs: how to build the client, and the
/// record to write.
#[derive(Clone, Debug)]
pub struct PutPlan {
    pub client: ClientPlan,
    pub record: StoreRecord,
}

/// The stages before the persist call: validates the event, resolves the
/// target location from configuration, and projects the event into the
/// record to write. Returns a plan only for a valid event, so no invalid
/// event ever reaches the store; an invalid one yields the validation error,
/// and nothing else fails.
pub fn prepare(event: &CustomEvent, config: Option<&str>) -> (r: Result<PutPlan, HelloError>)
    ensures
        match r {
            Ok(p) => valid_event(*event) && p.client@ == planned_client(
                resolved_location(config.deep_view()),
            ) && p.record.table@ == "hello_events"@ && p.record.attributes.deep_view()
                == record_attributes(*event),
            Err(e) => e matches HelloError::Validation(v) && first_violation(*event) == Some(v),
        },
        r is Ok <==> valid_event(*event),
{
    match validate(event) {
        Err(v) => Err(HelloError::Validation(v)),
        Ok(e) => {
            let location = determine_region(config);
            let client = client_plan(location);
            let record = e.to_record();
            Ok(PutPlan { client, record })
        },
    }
}

/// The stage after the persist call: a successful write yields the greeting
/// built from the event's first name; a classified failure is wrapped into
/// the handler-level error carrying its description.
pub fn complete(event: &CustomEvent, outcome: Result<(), StoreFailure>) -> (r: Result<
    CustomOutput,
    HelloError,
>)
    ensures
        outcome is Ok ==> (r matches Ok(o) && o.message@ == "Hello "@ + event.first_name@),
        outcome matches Err(f) ==> (r matches Err(e) && e matches HelloError::DbError(m) && m@
            == failure_description(f)),
{
    match outcome {
        Ok(_) => {
            let message = String::from_str("Hello ").concat(event.first_name.as_str());
            Ok(CustomOutput::new(message))
        },
        Err(f) => Err(HelloError::from_failure(&f)),
    }
}

} // verus!
