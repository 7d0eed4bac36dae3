//! Generic shape for integer-keyed lookup endpoints.

use crate::endpoints::req_entity_vec;
use crate::endpoints::spec_req_entity_vec;
use crate::endpoints::FromJson;
use crate::error::DecodeError;
use crate::json::spec_lookup;
use crate::json::spec_u32_of;
use crate::json::u32_of;
use crate::json::JsonValue;
use crate::models::CardResume;
use crate::models::CardResumeView;
use vstd::prelude::*;

verus! {

/// An integer-valued lookup entry together with the cards that carry it.
#[derive(Debug, Clone, PartialEq, Eq)]
pub struct IntEndpoint {
    /// The endpoint value
    pub name: u32,
    /// The cards that contain this value
    pub cards: Vec<CardResume>,
}

/// The mathematical content of an `IntEndpoint`.
pub struct IntEndpointView {
    /// The endpoint value
    pub name: u32,
    /// The cards that contain this value
    pub cards: Seq<CardResumeView>,
}

impl View for IntEndpoint {
    type V = IntEndpointView;

    open spec fn view(&self) -> IntEndpointView {
        IntEndpointView { name: self.name, cards: self.cards.deep_view() }
    }
}

impl DeepView for IntEndpoint {
    type V = IntEndpointView;

    open spec fn deep_view(&self) -> IntEndpointView {
        self.view()
    }
}

/// A required `u32` field.
pub open spec fn spec_req_u32(fields: Seq<(String, JsonValue)>, key: Seq<char>) -> Result<
    u32,
    DecodeError,
> {
    match spec_lookup(fields, key) {
        Option::None => Err(DecodeError::MissingField),
        Option::Some(v) => spec_u32_of(v),
    }
}

/// Read a required `u32` field.
fn req_u32(fields: &Vec<(String, JsonValue)>, key: &str) -> (r: Result<u32, DecodeError>)
    ensures
        r == spec_req_u32(fields@, key@),
{
    match crate::json::get_field(fields, key) {
        Option::None => Err(DecodeError::MissingField),
        Option::Some(v) => u32_of(v),
    }
}

impl FromJson for IntEndpoint {
    open spec fn spec_from_json(v: JsonValue) -> Result<IntEndpointView, DecodeError> {
        match v {
            JsonValue::Obj(f) => match spec_req_u32(f@, "name"@) {
                Ok(name) => match spec_req_entity_vec::<CardResume>(f@, "cards"@) {
                    Ok(cards) => Ok(IntEndpointView { name, cards }),
                    Err(e) => Err(e),
                },
                Err(e) => Err(e),
            },
            _ => Err(DecodeError::Mismatch),
        }
    }

    fn from_json(v: &JsonValue) -> (r: Result<IntEndpoint, DecodeError>) {
        match v {
            JsonValue::Obj(f) => {
                let name = match req_u32(f, "name") {
                    Ok(n) => n,
                    Err(e) => return Err(e),
                };
                let cards = match req_entity_vec::<CardResume>(f, "cards") {
                    Ok(c) => c,
                    Err(e) => return Err(e),
                };
                Ok(IntEndpoint { name, cards })
            },
            _ => Err(DecodeError::Mismatch),
        }
    }
}

} // verus!
