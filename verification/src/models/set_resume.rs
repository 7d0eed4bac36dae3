//! Set summary: the shape list operations return for sets.

use crate::endpoints::req_entity;
use crate::endpoints::spec_req_entity;
use crate::endpoints::FromJson;
use crate::error::DecodeError;
use crate::json::opt_str;
use crate::json::req_str;
use crate::json::spec_opt_str;
use crate::json::spec_req_str;
use crate::json::JsonValue;
use crate::models::Extension;
use crate::models::SetCardCountResume;
use crate::utils::build_logo_url;
use vstd::prelude::*;

verus! {

/// Basic information about a specific set.
#[derive(Debug, Clone, PartialEq, Eq)]
pub struct SetResume {
    /// Globally unique set ID
    pub id: String,
    /// The set name
    pub name: String,
    /// The set logo URL (without extension)
    pub logo: Option<String>,
    /// The set symbol URL (without extension)
    pub symbol: Option<String>,
    /// The number of cards in the set; its wire field is `cardCount`
    pub card_count: SetCardCountResume,
}

/// The mathematical content of a `SetResume`.
pub struct SetResumeView {
    /// Globally unique set ID
    pub id: Seq<char>,
    /// The set name
    pub name: Seq<char>,
    /// The set logo URL
    pub logo: Option<Seq<char>>,
    /// The set symbol URL
    pub symbol: Option<Seq<char>>,
    /// The number of cards in the set
    pub card_count: SetCardCountResume,
}

impl View for SetResume {
    type V = SetResumeView;

    open spec fn view(&self) -> SetResumeView {
        SetResumeView {
            id: self.id@,
            name: self.name@,
            logo: self.logo.deep_view(),
            symbol: self.symbol.deep_view(),
            card_count: self.card_count,
        }
    }
}

impl DeepView for SetResume {
    type V = SetResumeView;

    open spec fn deep_view(&self) -> SetResumeView {
        self.view()
    }
}

impl FromJson for SetResume {
    open spec fn spec_from_json(v: JsonValue) -> Result<SetResumeView, DecodeError> {
        match v {
            JsonValue::Obj(f) => match spec_req_str(f@, "id"@) {
                Ok(id) => match spec_req_str(f@, "name"@) {
                    Ok(name) => match spec_opt_str(f@, "logo"@) {
                        Ok(logo) => match spec_opt_str(f@, "symbol"@) {
                            Ok(symbol) => match spec_req_entity::<SetCardCountResume>(
                                f@,
                                "cardCount"@,
                            ) {
                                Ok(card_count) => Ok(
                                    SetResumeView { id, name, logo, symbol, card_count },
                                ),
                                Err(e) => Err(e),
                            },
                            Err(e) => Err(e),
                        },
                        Err(e) => Err(e),
                    },
                    Err(e) => Err(e),
                },
                Err(e) => Err(e),
            },
            _ => Err(DecodeError::Mismatch),
        }
    }

    fn from_json(v: &JsonValue) -> (r: Result<SetResume, DecodeError>) {
        match v {
            JsonValue::Obj(f) => {
                let id = match req_str(f, "id") {
                    Ok(s) => s,
                    Err(e) => return Err(e),
                };
                let name = match req_str(f, "name") {
                    Ok(s) => s,
                    Err(e) => return Err(e),
                };
                let logo = match opt_str(f, "logo") {
                    Ok(s) => s,
                    Err(e) => return Err(e),
                };
                let symbol = match opt_str(f, "symbol") {
                    Ok(s) => s,
                    Err(e) => return Err(e),
                };
                let card_count = match req_entity::<SetCardCountResume>(f, "cardCount") {
                    Ok(c) => c,
                    Err(e) => return Err(e),
                };
                Ok(SetResume { id, name, logo, symbol, card_count })
            },
            _ => Err(DecodeError::Mismatch),
        }
    }
}

impl SetResume {
    /// The full logo URL with the given extension, where the set has a logo.
    pub fn get_logo_url(&self, extension: Extension) -> (r: Option<String>)
        ensures
            match r {
                Option::Some(u) => self@.logo is Some && u@ == self@.logo->0 + "."@
                    + extension.spec_code(),
                Option::None => self@.logo is None,
            },
    {
        match &self.logo {
            Option::Some(base) => Option::Some(build_logo_url(base.as_str(), extension)),
            Option::None => Option::None,
        }
    }

    /// The full symbol URL with the given extension, where the set has a
    /// symbol.
    pub fn get_symbol_url(&self, extension: Extension) -> (r: Option<String>)
        ensures
            match r {
                Option::Some(u) => self@.symbol is Some && u@ == self@.symbol->0 + "."@
                    + extension.spec_code(),
                Option::None => self@.symbol is None,
            },
    {
        match &self.symbol {
            Option::Some(base) => Option::Some(build_logo_url(base.as_str(), extension)),
            Option::None => Option::None,
        }
    }
}

} // verus!
