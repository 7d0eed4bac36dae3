//! Serie model: full information about a specific serie.

use crate::endpoints::req_entity_vec;
use crate::endpoints::spec_req_entity_vec;
use crate::endpoints::FromJson;
use crate::error::DecodeError;
use crate::json::opt_str;
use crate::json::req_str;
use crate::json::spec_opt_str;
use crate::json::spec_req_str;
use crate::json::JsonValue;
use crate::models::Extension;
use crate::models::SetResume;
use crate::models::SetResumeView;
use crate::utils::build_logo_url;
use vstd::prelude::*;

verus! {

/// Full information about a specific serie.
#[derive(Debug, Clone, PartialEq, Eq)]
pub struct Serie {
    /// The sets the serie contains
    pub sets: Vec<SetResume>,
    /// The serie's unique ID
    pub id: String,
    /// The serie name
    pub name: String,
    /// The serie logo URL (without extension)
    pub logo: Option<String>,
}

/// The mathematical content of a `Serie`.
pub struct SerieView {
    /// The sets the serie contains
    pub sets: Seq<SetResumeView>,
    /// The serie's unique ID
    pub id: Seq<char>,
    /// The serie name
    pub name: Seq<char>,
    /// The serie logo URL
    pub logo: Option<Seq<char>>,
}

impl View for Serie {
    type V = SerieView;

    open spec fn view(&self) -> SerieView {
        SerieView {
            sets: self.sets.deep_view(),
            id: self.id@,
            name: self.name@,
            logo: self.logo.deep_view(),
        }
    }
}

impl DeepView for Serie {
    type V = SerieView;

    open spec fn deep_view(&self) -> SerieView {
        self.view()
    }
}

impl FromJson for Serie {
    open spec fn spec_from_json(v: JsonValue) -> Result<SerieView, DecodeError> {
        match v {
            JsonValue::Obj(f) => match spec_req_entity_vec::<SetResume>(f@, "sets"@) {
                Ok(sets) => match spec_req_str(f@, "id"@) {
                    Ok(id) => match spec_req_str(f@, "name"@) {
                        Ok(name) => match spec_opt_str(f@, "logo"@) {
                            Ok(logo) => Ok(SerieView { sets, id, name, logo }),
                            Err(e) => Err(e),
                        },
                        Err(e) => Err(e),
                    },
                    Err(e) => Err(e),
                },
                Err(e) => Err(e),
            },
            _ => Err(DecodeError::Mismatch),
        }
    }

    fn from_json(v: &JsonValue) -> (r: Result<Serie, DecodeError>) {
        match v {
            JsonValue::Obj(f) => {
                let sets = match req_entity_vec::<SetResume>(f, "sets") {
                    Ok(s) => s,
                    Err(e) => return Err(e),
                };
                let id = match req_str(f, "id") {
                    Ok(s) => s,
                    Err(e) => return Err(e),
                };
                let name = match req_str(f, "name") {
                    Ok(s) => s,
                    Err(e) => return Err(e),
                };
                let logo = match opt_str(f, "logo") {
                    Ok(s) => s,
                    Err(e) => return Err(e),
                };
                Ok(Serie { sets, id, name, logo })
            },
            _ => Err(DecodeError::Mismatch),
        }
    }
}

impl Serie {
    /// The full logo URL with the given extension, where the serie has a
    /// logo.
    pub fn get_logo_url(&self, extension: Extension) -> (r: Option<String>)
        ensures
            match r {
                Option::Some(u) => self@.logo is Some && u@ == self@.logo->0 + "."@
                    + extension.spec_code(),
                Option::None => self@.logo is None,
            },
    {
        match &self.logo {
            Option::Some(base) => Option::Some(build_logo_url(base.as_str(), extension)),
            Option::None => Option::None,
        }
    }
}

} // verus!
