//! Generic shape for string-keyed lookup endpoints.

use crate::endpoints::req_entity_vec;
use crate::endpoints::spec_req_entity_vec;
use crate::endpoints::FromJson;
use crate::error::DecodeError;
use crate::json::req_str;
use crate::json::spec_req_str;
use crate::json::JsonValue;
use crate::models::CardResume;
use crate::models::CardResumeView;
use vstd::prelude::*;

verus! {

/// A string-valued lookup entry together with the cards that carry it.
#[derive(Debug, Clone, PartialEq, Eq)]
pub struct StringEndpoint {
    /// The endpoint value
    pub name: String,
    /// The cards that contain this value
    pub cards: Vec<CardResume>,
}

/// The mathematical content of a `StringEndpoint`.
pub struct StringEndpointView {
    /// The endpoint value
    pub name: Seq<char>,
    /// The cards that contain this value
    pub cards: Seq<CardResumeView>,
}

impl View for StringEndpoint {
    type V = StringEndpointView;

    open spec fn view(&self) -> StringEndpointView {
        StringEndpointView { name: self.name@, cards: self.cards.deep_view() }
    }
}

impl DeepView for StringEndpoint {
    type V = StringEndpointView;

    open spec fn deep_view(&self) -> StringEndpointView {
        self.view()
    }
}

impl FromJson for StringEndpoint {
    open spec fn spec_from_json(v: JsonValue) -> Result<StringEndpointView, DecodeError> {
        match v {
            JsonValue::Obj(f) => match spec_req_str(f@, "name"@) {
                Ok(name) => match spec_req_entity_vec::<CardResume>(f@, "cards"@) {
                    Ok(cards) => Ok(StringEndpointView { name, cards }),
                    Err(e) => Err(e),
                },
                Err(e) => Err(e),
            },
            _ => Err(DecodeError::Mismatch),
        }
    }

    fn from_json(v: &JsonValue) -> (r: Result<StringEndpoint, DecodeError>) {
        match v {
            JsonValue::Obj(f) => {
                let name = match req_str(f, "name") {
                    Ok(s) => s,
                    Err(e) => return Err(e),
                };
                let cards = match req_entity_vec::<CardResume>(f, "cards") {
                    Ok(c) => c,
                    Err(e) => return Err(e),
                };
                Ok(StringEndpoint { name, cards })
            },
            _ => Err(DecodeError::Mismatch),
        }
    }
}

} // verus!
