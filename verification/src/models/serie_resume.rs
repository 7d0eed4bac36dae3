//! Serie summary: the shape list operations return for series.

use crate::endpoints::FromJson;
use crate::error::DecodeError;
use crate::json::opt_str;
use crate::json::req_str;
use crate::json::spec_opt_str;
use crate::json::spec_req_str;
use crate::json::JsonValue;
use crate::models::Extension;
use crate::utils::build_logo_url;
use vstd::prelude::*;

verus! {

/// Basic information about a specific serie.
#[derive(Debug, Clone, PartialEq, Eq)]
pub struct SerieResume {
    /// The serie's unique ID
    pub id: String,
    /// The serie name
    pub name: String,
    /// The serie logo URL (without extension)
    pub logo: Option<String>,
}

/// The mathematical content of a `SerieResume`.
pub struct SerieResumeView {
    /// The serie's unique ID
    pub id: Seq<char>,
    /// The serie name
    pub name: Seq<char>,
    /// The serie logo URL
    pub logo: Option<Seq<char>>,
}

impl View for SerieResume {
    type V = SerieResumeView;

    open spec fn view(&self) -> SerieResumeView {
        SerieResumeView { id: self.id@, name: self.name@, logo: self.logo.deep_view() }
    }
}

impl DeepView for SerieResume {
    type V = SerieResumeView;

    open spec fn deep_view(&self) -> SerieResumeView {
        self.view()
    }
}

impl FromJson for SerieResume {
    open spec fn spec_from_json(v: JsonValue) -> Result<SerieResumeView, DecodeError> {
        match v {
            JsonValue::Obj(f) => match spec_req_str(f@, "id"@) {
                Ok(id) => match spec_req_str(f@, "name"@) {
                    Ok(name) => match spec_opt_str(f@, "logo"@) {
                        Ok(logo) => Ok(SerieResumeView { id, name, logo }),
                        Err(e) => Err(e),
                    },
                    Err(e) => Err(e),
                },
                Err(e) => Err(e),
            },
            _ => Err(DecodeError::Mismatch),
        }
    }

    fn from_json(v: &JsonValue) -> (r: Result<SerieResume, DecodeError>) {
        match v {
            JsonValue::Obj(f) => {
                let id = match req_str(f, "id") {
                    Ok(s) => s,
                    Err(e) => return Err(e),
                };
                let name = match req_str(f, "name") {
                    Ok(s) => s,
                    Err(e) => return Err(e),
                };
                let logo = match opt_str(f, "logo") {
                    Ok(s) => s,
                    Err(e) => return Err(e),
                };
                Ok(SerieResume { id, name, logo })
            },
            _ => Err(DecodeError::Mismatch),
        }
    }
}

impl SerieResume {
    /// The full logo URL with the given extension, where the serie has a
    /// logo.
    pub fn get_logo_url(&self, extension: Extension) -> (r: Option<String>)
        ensures
            match r {
                Option::Some(u) => self@.logo is Some && u@ == self@.logo->0 + "."@
                    + extension.spec_code(),
                Option::None => self@.logo is None,
            },
    {
        match &self.logo {
            Option::Some(base) => Option::Some(build_logo_url(base.as_str(), extension)),
            Option::None => Option::None,
        }
    }
}

} // verus!
