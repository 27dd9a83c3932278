//! The store-facing side of the pipeline: the record projected from an
//! event, the plan for constructing a store client from a resolved location,
//! and the classification of store failures.
//!
//! The network call itself is performed by the surrounding program; this
//! module fixes, with proofs, what is sent and how each outcome is treated.

use vstd::prelude::*;
use crate::errors::HelloError;
use crate::model::CustomEvent;
use crate::region::{TargetLocation, TargetLocationView};

verus! {

/// The transient projection of an event that is written to the store: a
/// fixed three-attribute mapping in a named table, keyed by the first
/// attribute (the email).
#[derive(Clone, Debug)]
pub struct StoreRecord {
    pub table: String,
    pub attributes: Vec<(String, String)>,
}

/// The attribute mapping derived from an event: fixed names, the event's
/// values, in a fixed order with the key first.
pub open spec fn record_attributes(e: CustomEvent) -> Seq<(Seq<char>, Seq<char>)> {
    seq![
        ("email"@, e.email@),
        ("first_name"@, e.first_name@),
        ("last_name"@, e.last_name@),
    ]
}

impl CustomEvent {
    /// Projects the event into the record that the persist call writes.
    pub fn to_record(&self) -> (r: StoreRecord)
        ensures
            r.table@ == "hello_events"@,
            r.attributes.deep_view() == record_attributes(*self),
    {
        let mut attributes: Vec<(String, String)> = Vec::new();
        attributes.push(("email".to_owned(), self.email.clone()));
        attributes.push(("first_name".to_owned(), self.first_name.clone()));
        attributes.push(("last_name".to_owned(), self.last_name.clone()));
        proof {
            assert(attributes.deep_view() =~= record_attributes(*self));
        }
        StoreRecord { table: "hello_events".to_owned(), attributes }
    }
}

/// How a store client is to be constructed for a resolved location: the
/// reserved local location gets fixed placeholder credentials and a plain
/// transport against its explicit endpoint; every other location uses the
/// ambient credential chain.
#[derive(Clone, Debug)]
pub enum ClientPlan {
    LocalTest { endpoint: String, access_key: String, secret_key: String },
    Ambient { location: TargetLocation },
}

/// The mathematical shape of a client plan.
pub enum ClientPlanView {
    LocalTest { endpoint: Seq<char>, access_key: Seq<char>, secret_key: Seq<char> },
    Ambient { location: TargetLocationView },
}

impl View for ClientPlan {
    type V = ClientPlanView;

    open spec fn view(&self) -> ClientPlanView {
        match self {
            ClientPlan::LocalTest { endpoint, access_key, secret_key } => (
            ClientPlanView::LocalTest {
                endpoint: endpoint@,
                access_key: access_key@,
                secret_key: secret_key@,
            }),
            ClientPlan::Ambient { location } => ClientPlanView::Ambient {
                location: location@,
            },
        }
    }
}

/// The construction rule: a custom location bearing the reserved default
/// name is served by the local test client, with the fixed placeholder
/// credentials of the unauthenticated local store; anything else by a client
/// with the ambient credential chain.
pub open spec fn planned_client(l: TargetLocationView) -> ClientPlanView {
    match l {
        TargetLocationView::Custom { name, endpoint } => if name == "local"@ {
            ClientPlanView::LocalTest {
                endpoint,
                access_key: "fakeKey"@,
                secret_key: "fakeSecret"@,
            }
        } else {
            ClientPlanView::Ambient { location: l }
        },
        TargetLocationView::WellKnown { .. } => ClientPlanView::Ambient { location: l },
    }
}

/// Decides how the store client is to be built for the given location.
pub fn client_plan(location: TargetLocation) -> (r: ClientPlan)
    ensures
        r@ == planned_client(location@),
{
    match location {
        TargetLocation::Custom { name, endpoint } => {
            let local: String = "local".to_owned();
            if name == local {
                ClientPlan::LocalTest {
                    endpoint,
                    access_key: "fakeKey".to_owned(),
                    secret_key: "fakeSecret".to_owned(),
                }
            } else {
                ClientPlan::Ambient { location: TargetLocation::Custom { name, endpoint } }
            }
        },
        TargetLocation::WellKnown { name } => ClientPlan::Ambient {
            location: TargetLocation::WellKnown { name },
        },
    }
}

/// A classified store failure, as reported back by the persist call: either
/// an opaque transport failure whose raw response body is kept for
/// diagnostics, or a failure in a named category of the store's own
/// taxonomy. Both carry a human-readable description.
#[derive(Clone, Debug)]
pub enum StoreFailure {
    Unknown { body: String, description: String },
    Categorized { category: String, description: String },
}

/// The readable description carried by a classified failure.
pub open spec fn failure_description(f: StoreFailure) -> Seq<char> {
    match f {
        StoreFailure::Unknown { description, .. } => description@,
        StoreFailure::Categorized { description, .. } => description@,
    }
}

impl StoreFailure {
    /// The human-readable description of the failure.
    pub fn describe(&self) -> (r: String)
        ensures
            r@ == failure_description(*self),
    {
        match self {
            StoreFailure::Unknown { description, .. } => description.clone(),
            StoreFailure::Categorized { description, .. } => description.clone(),
        }
    }
}

impl HelloError {
    /// Wraps a classified store failure into the single handler-level error,
    /// carrying the failure's description.
    pub fn from_failure(f: &StoreFailure) -> (r: HelloError)
        ensures
            r matches HelloError::DbError(m) && m@ == failure_description(*f),
    {
        HelloError::DbError(f.describe())
    }
}

} // verus!
