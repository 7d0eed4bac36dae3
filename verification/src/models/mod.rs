//! Data models for the API's resources.

mod card;
mod card_resume;
mod common;
mod enums;
mod int_endpoint;
mod primitive_lists;
mod serie;
mod serie_resume;
mod set;
mod set_resume;
mod string_endpoint;

pub use self::card::Card;
pub use self::card::CardView;
pub use self::card_resume::CardResume;
pub use self::card_resume::CardResumeView;
pub use self::common::CardAbility;
pub use self::common::CardAbilityView;
pub use self::common::CardAttack;
pub use self::common::CardAttackView;
pub use self::common::CardItem;
pub use self::common::CardItemView;
pub use self::common::CardVariants;
pub use self::common::CardWeakRes;
pub use self::common::CardWeakResView;
pub use self::common::Damage;
pub use self::common::DamageView;
pub use self::common::Legal;
pub use self::common::SetCardCount;
pub use self::common::SetCardCountResume;
pub use self::enums::Extension;
pub use self::enums::Language;
pub use self::enums::Quality;
pub use self::int_endpoint::IntEndpoint;
pub use self::int_endpoint::IntEndpointView;
pub use self::primitive_lists::IntList;
pub use self::primitive_lists::StringList;
pub use self::serie::Serie;
pub use self::serie::SerieView;
pub use self::serie_resume::SerieResume;
pub use self::serie_resume::SerieResumeView;
pub use self::set::CardSet;
pub use self::set::CardSetView;
pub use self::set_resume::SetResume;
pub use self::set_resume::SetResumeView;
pub use self::string_endpoint::StringEndpoint;
pub use self::string_endpoint::StringEndpointView;
