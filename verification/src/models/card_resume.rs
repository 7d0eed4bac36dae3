//! Card summary: the shape list operations return for cards.

use crate::endpoints::FromJson;
use crate::error::DecodeError;
use crate::json::opt_str;
use crate::json::req_str;
use crate::json::spec_opt_str;
use crate::json::spec_req_str;
use crate::json::JsonValue;
use crate::models::Extension;
use crate::models::Quality;
use crate::utils::build_image_url;
use vstd::prelude::*;

verus! {

/// Basic information about a specific card.
#[derive(Debug, Clone, PartialEq, Eq)]
pub struct CardResume {
    /// Globally unique card ID
    pub id: String,
    /// ID indexing this card within its set; its wire field is `localId`
    pub local_id: String,
    /// Card name
    pub name: String,
    /// Card image URL (without extension and quality)
    pub image: Option<String>,
}

/// The mathematical content of a `CardResume`.
pub struct CardResumeView {
    /// Globally unique card ID
    pub id: Seq<char>,
    /// ID indexing this card within its set
    pub local_id: Seq<char>,
    /// Card name
    pub name: Seq<char>,
    /// Card image URL
    pub image: Option<Seq<char>>,
}

impl View for CardResume {
    type V = CardResumeView;

    open spec fn view(&self) -> CardResumeView {
        CardResumeView {
            id: self.id@,
            local_id: self.local_id@,
            name: self.name@,
            image: self.image.deep_view(),
        }
    }
}

impl DeepView for CardResume {
    type V = CardResumeView;

    open spec fn deep_view(&self) -> CardResumeView {
        self.view()
    }
}

impl FromJson for CardResume {
    open spec fn spec_from_json(v: JsonValue) -> Result<CardResumeView, DecodeError> {
        match v {
            JsonValue::Obj(f) => match spec_req_str(f@, "id"@) {
                Ok(id) => match spec_req_str(f@, "localId"@) {
                    Ok(local_id) => match spec_req_str(f@, "name"@) {
                        Ok(name) => match spec_opt_str(f@, "image"@) {
                            Ok(image) => Ok(CardResumeView { id, local_id, name, image }),
                            Err(e) => Err(e),
                        },
                        Err(e) => Err(e),
                    },
                    Err(e) => Err(e),
                },
                Err(e) => Err(e),
            },
            _ => Err(DecodeError::Mismatch),
        }
    }

    fn from_json(v: &JsonValue) -> (r: Result<CardResume, DecodeError>) {
        match v {
            JsonValue::Obj(f) => {
                let id = match req_str(f, "id") {
                    Ok(s) => s,
                    Err(e) => return Err(e),
                };
                let local_id = match req_str(f, "localId") {
                    Ok(s) => s,
                    Err(e) => return Err(e),
                };
                let name = match req_str(f, "name") {
                    Ok(s) => s,
                    Err(e) => return Err(e),
                };
                let image = match opt_str(f, "image") {
                    Ok(s) => s,
                    Err(e) => return Err(e),
                };
                Ok(CardResume { id, local_id, name, image })
            },
            _ => Err(DecodeError::Mismatch),
        }
    }
}

impl CardResume {
    /// The full image URL with the given quality and extension, where the
    /// card has an image.
    pub fn get_image_url(&self, quality: Quality, extension: Extension) -> (r: Option<String>)
        ensures
            match r {
                Option::Some(u) => self@.image is Some && u@ == self@.image->0 + "/"@
                    + quality.spec_code() + "."@ + extension.spec_code(),
                Option::None => self@.image is None,
            },
    {
        match &self.image {
            Option::Some(base) => Option::Some(build_image_url(base.as_str(), quality, extension)),
            Option::None => Option::None,
        }
    }
}

} // verus!
