//! A typed client library for a remote trading-card-game catalog API.
//!
//! The crate centers on three verified pieces: a query-string builder that
//! renders filter/sort/pagination parameters into the exact wire grammar the
//! API expects, a flexible decoder that absorbs the API's habit of sending a
//! bare scalar where a list of primitives was advertised, and a generic
//! resource endpoint that composes request URLs and turns raw responses
//! (status code plus body bytes) into typed results.
//!
//! Network transport itself is left to the embedding application: every
//! function here is a pure computation from plain values to plain values,
//! with the one exception of a trusted call into `serde_json` to parse a
//! response body into the crate's wire-value model.

pub mod encoding;
pub mod endpoints;
pub mod error;
pub mod json;
pub mod models;
pub mod numbers;
pub mod query;
pub mod utils;

pub use endpoints::Endpoint;
pub use endpoints::FromJson;
pub use error::DecodeError;
pub use error::Error;
pub use json::parse_json;
pub use json::JsonValue;
pub use models::Card;
pub use models::CardAbility;
pub use models::CardSet;
pub use models::CardAttack;
pub use models::CardItem;
pub use models::CardResume;
pub use models::CardVariants;
pub use models::CardWeakRes;
pub use models::Damage;
pub use models::Extension;
pub use models::IntEndpoint;
pub use models::IntList;
pub use models::Language;
pub use models::Legal;
pub use models::Quality;
pub use models::Serie;
pub use models::SerieResume;
pub use models::SetCardCount;
pub use models::SetCardCountResume;
pub use models::SetResume;
pub use models::StringEndpoint;
pub use models::StringList;
pub use query::Query;
pub use utils::build_image_url;
pub use utils::build_logo_url;
pub use utils::compose_base_url;
pub use utils::string_or_number_to_i32;
