//! Card model: full information about a specific card.

use crate::endpoints::opt_entity;
use crate::endpoints::opt_entity_vec;
use crate::endpoints::req_entity;
use crate::endpoints::spec_opt_entity;
use crate::endpoints::spec_opt_entity_vec;
use crate::endpoints::spec_req_entity;
use crate::endpoints::FromJson;
use crate::error::DecodeError;
use crate::json::get_field;
use crate::json::opt_i32;
use crate::json::opt_i32_vec;
use crate::json::opt_str;
use crate::json::opt_str_vec;
use crate::json::req_str;
use crate::json::spec_lookup;
use crate::json::spec_opt_i32;
use crate::json::spec_opt_i32_vec;
use crate::json::spec_opt_str;
use crate::json::spec_opt_str_vec;
use crate::json::spec_req_str;
use crate::json::JsonValue;
use crate::models::CardAbility;
use crate::models::CardAbilityView;
use crate::models::CardAttack;
use crate::models::CardAttackView;
use crate::models::CardItem;
use crate::models::CardItemView;
use crate::models::CardVariants;
use crate::models::CardWeakRes;
use crate::models::CardWeakResView;
use crate::models::Extension;
use crate::models::Legal;
use crate::models::Quality;
use crate::models::SetResume;
use crate::models::SetResumeView;
use crate::utils::build_image_url;
use crate::utils::spec_string_or_number_to_i32;
use crate::utils::string_or_number_to_i32;
use vstd::prelude::*;

verus! {

/// Full information about a specific card. All fields besides the
/// identifiers are optional: the API omits fields depending on the card's
/// category.
#[derive(Debug, Clone, PartialEq, Eq)]
pub struct Card {
    /// Card illustrator
    pub illustrator: Option<String>,
    /// Card rarity
    pub rarity: String,
    /// Card category
    pub category: String,
    /// The card's possible variants
    pub variants: CardVariants,
    /// Resume of the set the card belongs to
    pub set: SetResume,
    /// The Pokedex IDs; its wire field is `dexIDs`
    pub dex_ids: Option<Vec<i32>>,
    /// HP, which the wire may carry as an integer or as a text
    pub hp: Option<i32>,
    /// Types of the card
    pub types: Option<Vec<String>>,
    /// Name of the card this one evolves from; its wire field is
    /// `evolvesFrom`
    pub evolves_from: Option<String>,
    /// The Pokedex description
    pub description: Option<String>,
    /// The level
    pub level: Option<String>,
    /// The stage
    pub stage: Option<String>,
    /// The suffix
    pub suffix: Option<String>,
    /// The held item
    pub item: Option<CardItem>,
    /// The card abilities
    pub abilities: Option<Vec<CardAbility>>,
    /// The card attacks
    pub attacks: Option<Vec<CardAttack>>,
    /// The weaknesses
    pub weaknesses: Option<Vec<CardWeakRes>>,
    /// The resistances
    pub resistances: Option<Vec<CardWeakRes>>,
    /// The retreat cost
    pub retreat: Option<i32>,
    /// The card effect (Trainer/Energy only)
    pub effect: Option<String>,
    /// The trainer sub-type; its wire field is `trainerType`
    pub trainer_type: Option<String>,
    /// The energy sub-type; its wire field is `energyType`
    pub energy_type: Option<String>,
    /// The regulation mark; its wire field is `regulationMark`
    pub regulation_mark: Option<String>,
    /// The card legality for tournament play
    pub legal: Legal,
    /// Globally unique card ID
    pub id: String,
    /// ID indexing this card within its set; its wire field is `localId`
    pub local_id: String,
    /// Card name
    pub name: String,
    /// Card image URL (without extension and quality)
    pub image: Option<String>,
}

/// The mathematical content of a `Card`.
pub struct CardView {
    /// Card illustrator
    pub illustrator: Option<Seq<char>>,
    /// Card rarity
    pub rarity: Seq<char>,
    /// Card category
    pub category: Seq<char>,
    /// The card's possible variants
    pub variants: CardVariants,
    /// Resume of the set the card belongs to
    pub set: SetResumeView,
    /// The Pokedex IDs
    pub dex_ids: Option<Seq<i32>>,
    /// HP
    pub hp: Option<i32>,
    /// Types of the card
    pub types: Option<Seq<Seq<char>>>,
    /// Name of the card this one evolves from
    pub evolves_from: Option<Seq<char>>,
    /// The Pokedex description
    pub description: Option<Seq<char>>,
    /// The level
    pub level: Option<Seq<char>>,
    /// The stage
    pub stage: Option<Seq<char>>,
    /// The suffix
    pub suffix: Option<Seq<char>>,
    /// The held item
    pub item: Option<CardItemView>,
    /// The card abilities
    pub abilities: Option<Seq<CardAbilityView>>,
    /// The card attacks
    pub attacks: Option<Seq<CardAttackView>>,
    /// The weaknesses
    pub weaknesses: Option<Seq<CardWeakResView>>,
    /// The resistances
    pub resistances: Option<Seq<CardWeakResView>>,
    /// The retreat cost
    pub retreat: Option<i32>,
    /// The card effect
    pub effect: Option<Seq<char>>,
    /// The trainer sub-type
    pub trainer_type: Option<Seq<char>>,
    /// The energy sub-type
    pub energy_type: Option<Seq<char>>,
    /// The regulation mark
    pub regulation_mark: Option<Seq<char>>,
    /// The card legality
    pub legal: Legal,
    /// Globally unique card ID
    pub id: Seq<char>,
    /// ID indexing this card within its set
    pub local_id: Seq<char>,
    /// Card name
    pub name: Seq<char>,
    /// Card image URL
    pub image: Option<Seq<char>>,
}

impl View for Card {
    type V = CardView;

    open spec fn view(&self) -> CardView {
        CardView {
            illustrator: self.illustrator.deep_view(),
            rarity: self.rarity@,
            category: self.category@,
            variants: self.variants,
            set: self.set@,
            dex_ids: self.dex_ids.deep_view(),
            hp: self.hp,
            types: self.types.deep_view(),
            evolves_from: self.evolves_from.deep_view(),
            description: self.description.deep_view(),
            level: self.level.deep_view(),
            stage: self.stage.deep_view(),
            suffix: self.suffix.deep_view(),
            item: self.item.deep_view(),
            abilities: self.abilities.deep_view(),
            attacks: self.attacks.deep_view(),
            weaknesses: self.weaknesses.deep_view(),
            resistances: self.resistances.deep_view(),
            retreat: self.retreat,
            effect: self.effect.deep_view(),
            trainer_type: self.trainer_type.deep_view(),
            energy_type: self.energy_type.deep_view(),
            regulation_mark: self.regulation_mark.deep_view(),
            legal: self.legal,
            id: self.id@,
            local_id: self.local_id@,
            name: self.name@,
            image: self.image.deep_view(),
        }
    }
}

impl DeepView for Card {
    type V = CardView;

    open spec fn deep_view(&self) -> CardView {
        self.view()
    }
}

/// The HP field: missing means unset, a present value goes through the
/// lenient scalar-or-string rule.
pub open spec fn spec_opt_hp(fields: Seq<(String, JsonValue)>) -> Result<Option<i32>, DecodeError> {
    match spec_lookup(fields, "hp"@) {
        Option::None => Ok(Option::None),
        Option::Some(v) => spec_string_or_number_to_i32(v),
    }
}

/// Read the HP field.
fn opt_hp(fields: &Vec<(String, JsonValue)>) -> (r: Result<Option<i32>, DecodeError>)
    ensures
        r == spec_opt_hp(fields@),
{
    match get_field(fields, "hp") {
        Option::None => Ok(Option::None),
        Option::Some(v) => string_or_number_to_i32(v),
    }
}

/// Whether every field of a card object decodes.
pub open spec fn spec_card_fields_ok(f: Seq<(String, JsonValue)>) -> bool {
    &&& spec_opt_str(f, "illustrator"@) is Ok
    &&& spec_req_str(f, "rarity"@) is Ok
    &&& spec_req_str(f, "category"@) is Ok
    &&& spec_req_entity::<CardVariants>(f, "variants"@) is Ok
    &&& spec_req_entity::<SetResume>(f, "set"@) is Ok
    &&& spec_opt_i32_vec(f, "dexIDs"@) is Ok
    &&& spec_opt_hp(f) is Ok
    &&& spec_opt_str_vec(f, "types"@) is Ok
    &&& spec_opt_str(f, "evolvesFrom"@) is Ok
    &&& spec_opt_str(f, "description"@) is Ok
    &&& spec_opt_str(f, "level"@) is Ok
    &&& spec_opt_str(f, "stage"@) is Ok
    &&& spec_opt_str(f, "suffix"@) is Ok
    &&& spec_opt_entity::<CardItem>(f, "item"@) is Ok
    &&& spec_opt_entity_vec::<CardAbility>(f, "abilities"@) is Ok
    &&& spec_opt_entity_vec::<CardAttack>(f, "attacks"@) is Ok
    &&& spec_opt_entity_vec::<CardWeakRes>(f, "weaknesses"@) is Ok
    &&& spec_opt_entity_vec::<CardWeakRes>(f, "resistances"@) is Ok
    &&& spec_opt_i32(f, "retreat"@) is Ok
    &&& spec_opt_str(f, "effect"@) is Ok
    &&& spec_opt_str(f, "trainerType"@) is Ok
    &&& spec_opt_str(f, "energyType"@) is Ok
    &&& spec_opt_str(f, "regulationMark"@) is Ok
    &&& spec_req_entity::<Legal>(f, "legal"@) is Ok
    &&& spec_req_str(f, "id"@) is Ok
    &&& spec_req_str(f, "localId"@) is Ok
    &&& spec_req_str(f, "name"@) is Ok
    &&& spec_opt_str(f, "image"@) is Ok
}

/// The card a fully-decoding object holds.
pub open spec fn spec_card_fields(f: Seq<(String, JsonValue)>) -> CardView
    recommends
        spec_card_fields_ok(f),
{
    CardView {
        illustrator: spec_opt_str(f, "illustrator"@)->Ok_0,
        rarity: spec_req_str(f, "rarity"@)->Ok_0,
        category: spec_req_str(f, "category"@)->Ok_0,
        variants: spec_req_entity::<CardVariants>(f, "variants"@)->Ok_0,
        set: spec_req_entity::<SetResume>(f, "set"@)->Ok_0,
        dex_ids: spec_opt_i32_vec(f, "dexIDs"@)->Ok_0,
        hp: spec_opt_hp(f)->Ok_0,
        types: spec_opt_str_vec(f, "types"@)->Ok_0,
        evolves_from: spec_opt_str(f, "evolvesFrom"@)->Ok_0,
        description: spec_opt_str(f, "description"@)->Ok_0,
        level: spec_opt_str(f, "level"@)->Ok_0,
        stage: spec_opt_str(f, "stage"@)->Ok_0,
        suffix: spec_opt_str(f, "suffix"@)->Ok_0,
        item: spec_opt_entity::<CardItem>(f, "item"@)->Ok_0,
        abilities: spec_opt_entity_vec::<CardAbility>(f, "abilities"@)->Ok_0,
        attacks: spec_opt_entity_vec::<CardAttack>(f, "attacks"@)->Ok_0,
        weaknesses: spec_opt_entity_vec::<CardWeakRes>(f, "weaknesses"@)->Ok_0,
        resistances: spec_opt_entity_vec::<CardWeakRes>(f, "resistances"@)->Ok_0,
        retreat: spec_opt_i32(f, "retreat"@)->Ok_0,
        effect: spec_opt_str(f, "effect"@)->Ok_0,
        trainer_type: spec_opt_str(f, "trainerType"@)->Ok_0,
        energy_type: spec_opt_str(f, "energyType"@)->Ok_0,
        regulation_mark: spec_opt_str(f, "regulationMark"@)->Ok_0,
        legal: spec_req_entity::<Legal>(f, "legal"@)->Ok_0,
        id: spec_req_str(f, "id"@)->Ok_0,
        local_id: spec_req_str(f, "localId"@)->Ok_0,
        name: spec_req_str(f, "name"@)->Ok_0,
        image: spec_opt_str(f, "image"@)->Ok_0,
    }
}

/// The first error a card object's decode hits, in field order.
pub open spec fn spec_card_first_err(f: Seq<(String, JsonValue)>) -> DecodeError
    recommends
        !spec_card_fields_ok(f),
{
    if spec_opt_str(f, "illustrator"@) is Err {
        spec_opt_str(f, "illustrator"@)->Err_0
    } else if spec_req_str(f, "rarity"@) is Err {
        spec_req_str(f, "rarity"@)->Err_0
    } else if spec_req_str(f, "category"@) is Err {
        spec_req_str(f, "category"@)->Err_0
    } else if spec_req_entity::<CardVariants>(f, "variants"@) is Err {
        spec_req_entity::<CardVariants>(f, "variants"@)->Err_0
    } else if spec_req_entity::<SetResume>(f, "set"@) is Err {
        spec_req_entity::<SetResume>(f, "set"@)->Err_0
    } else if spec_opt_i32_vec(f, "dexIDs"@) is Err {
        spec_opt_i32_vec(f, "dexIDs"@)->Err_0
    } else if spec_opt_hp(f) is Err {
        spec_opt_hp(f)->Err_0
    } else if spec_opt_str_vec(f, "types"@) is Err {
        spec_opt_str_vec(f, "types"@)->Err_0
    } else if spec_opt_str(f, "evolvesFrom"@) is Err {
        spec_opt_str(f, "evolvesFrom"@)->Err_0
    } else if spec_opt_str(f, "description"@) is Err {
        spec_opt_str(f, "description"@)->Err_0
    } else if spec_opt_str(f, "level"@) is Err {
        spec_opt_str(f, "level"@)->Err_0
    } else if spec_opt_str(f, "stage"@) is Err {
        spec_opt_str(f, "stage"@)->Err_0
    } else if spec_opt_str(f, "suffix"@) is Err {
        spec_opt_str(f, "suffix"@)->Err_0
    } else if spec_opt_entity::<CardItem>(f, "item"@) is Err {
        spec_opt_entity::<CardItem>(f, "item"@)->Err_0
    } else if spec_opt_entity_vec::<CardAbility>(f, "abilities"@) is Err {
        spec_opt_entity_vec::<CardAbility>(f, "abilities"@)->Err_0
    } else if spec_opt_entity_vec::<CardAttack>(f, "attacks"@) is Err {
        spec_opt_entity_vec::<CardAttack>(f, "attacks"@)->Err_0
    } else if spec_opt_entity_vec::<CardWeakRes>(f, "weaknesses"@) is Err {
        spec_opt_entity_vec::<CardWeakRes>(f, "weaknesses"@)->Err_0
    } else if spec_opt_entity_vec::<CardWeakRes>(f, "resistances"@) is Err {
        spec_opt_entity_vec::<CardWeakRes>(f, "resistances"@)->Err_0
    } else if spec_opt_i32(f, "retreat"@) is Err {
        spec_opt_i32(f, "retreat"@)->Err_0
    } else if spec_opt_str(f, "effect"@) is Err {
        spec_opt_str(f, "effect"@)->Err_0
    } else if spec_opt_str(f, "trainerType"@) is Err {
        spec_opt_str(f, "trainerType"@)->Err_0
    } else if spec_opt_str(f, "energyType"@) is Err {
        spec_opt_str(f, "energyType"@)->Err_0
    } else if spec_opt_str(f, "regulationMark"@) is Err {
        spec_opt_str(f, "regulationMark"@)->Err_0
    } else if spec_req_entity::<Legal>(f, "legal"@) is Err {
        spec_req_entity::<Legal>(f, "legal"@)->Err_0
    } else if spec_req_str(f, "id"@) is Err {
        spec_req_str(f, "id"@)->Err_0
    } else if spec_req_str(f, "localId"@) is Err {
        spec_req_str(f, "localId"@)->Err_0
    } else if spec_req_str(f, "name"@) is Err {
        spec_req_str(f, "name"@)->Err_0
    } else if spec_opt_str(f, "image"@) is Err {
        spec_opt_str(f, "image"@)->Err_0
    } else {
        DecodeError::Mismatch
    }
}

impl FromJson for Card {
    open spec fn spec_from_json(v: JsonValue) -> Result<CardView, DecodeError> {
        match v {
            JsonValue::Obj(f) => if spec_card_fields_ok(f@) {
                Ok(spec_card_fields(f@))
            } else {
                Err(spec_card_first_err(f@))
            },
            _ => Err(DecodeError::Mismatch),
        }
    }

    #[verifier::rlimit(30)]
    fn from_json(v: &JsonValue) -> (r: Result<Card, DecodeError>) {
        match v {
            JsonValue::Obj(f) => {
                let illustrator = match opt_str(f, "illustrator") {
                    Ok(x) => x,
                    Err(e) => return Err(e),
                };
                let rarity = match req_str(f, "rarity") {
                    Ok(x) => x,
                    Err(e) => return Err(e),
                };
                let category = match req_str(f, "category") {
                    Ok(x) => x,
                    Err(e) => return Err(e),
                };
                let variants = match req_entity::<CardVariants>(f, "variants") {
                    Ok(x) => x,
                    Err(e) => return Err(e),
                };
                let set = match req_entity::<SetResume>(f, "set") {
                    Ok(x) => x,
                    Err(e) => return Err(e),
                };
                let dex_ids = match opt_i32_vec(f, "dexIDs") {
                    Ok(x) => x,
                    Err(e) => return Err(e),
                };
                let hp = match opt_hp(f) {
                    Ok(x) => x,
                    Err(e) => return Err(e),
                };
                let types = match opt_str_vec(f, "types") {
                    Ok(x) => x,
                    Err(e) => return Err(e),
                };
                let evolves_from = match opt_str(f, "evolvesFrom") {
                    Ok(x) => x,
                    Err(e) => return Err(e),
                };
                let description = match opt_str(f, "description") {
                    Ok(x) => x,
                    Err(e) => return Err(e),
                };
                let level = match opt_str(f, "level") {
                    Ok(x) => x,
                    Err(e) => return Err(e),
                };
                let stage = match opt_str(f, "stage") {
                    Ok(x) => x,
                    Err(e) => return Err(e),
                };
                let suffix = match opt_str(f, "suffix") {
                    Ok(x) => x,
                    Err(e) => return Err(e),
                };
                let item = match opt_entity::<CardItem>(f, "item") {
                    Ok(x) => x,
                    Err(e) => return Err(e),
                };
                let abilities = match opt_entity_vec::<CardAbility>(f, "abilities") {
                    Ok(x) => x,
                    Err(e) => return Err(e),
                };
                let attacks = match opt_entity_vec::<CardAttack>(f, "attacks") {
                    Ok(x) => x,
                    Err(e) => return Err(e),
                };
                let weaknesses = match opt_entity_vec::<CardWeakRes>(f, "weaknesses") {
                    Ok(x) => x,
                    Err(e) => return Err(e),
                };
                let resistances = match opt_entity_vec::<CardWeakRes>(f, "resistances") {
                    Ok(x) => x,
                    Err(e) => return Err(e),
                };
                let retreat = match opt_i32(f, "retreat") {
                    Ok(x) => x,
                    Err(e) => return Err(e),
                };
                let effect = match opt_str(f, "effect") {
                    Ok(x) => x,
                    Err(e) => return Err(e),
                };
                let trainer_type = match opt_str(f, "trainerType") {
                    Ok(x) => x,
                    Err(e) => return Err(e),
                };
                let energy_type = match opt_str(f, "energyType") {
                    Ok(x) => x,
                    Err(e) => return Err(e),
                };
                let regulation_mark = match opt_str(f, "regulationMark") {
                    Ok(x) => x,
                    Err(e) => return Err(e),
                };
                let legal = match req_entity::<Legal>(f, "legal") {
                    Ok(x) => x,
                    Err(e) => return Err(e),
                };
                let id = match req_str(f, "id") {
                    Ok(x) => x,
                    Err(e) => return Err(e),
                };
                let local_id = match req_str(f, "localId") {
                    Ok(x) => x,
                    Err(e) => return Err(e),
                };
                let name = match req_str(f, "name") {
                    Ok(x) => x,
                    Err(e) => return Err(e),
                };
                let image = match opt_str(f, "image") {
                    Ok(x) => x,
                    Err(e) => return Err(e),
                };
                Ok(
                    Card {
                        illustrator,
                        rarity,
                        category,
                        variants,
                        set,
                        dex_ids,
                        hp,
                        types,
                        evolves_from,
                        description,
                        level,
                        stage,
                        suffix,
                        item,
                        abilities,
                        attacks,
                        weaknesses,
                        resistances,
                        retreat,
                        effect,
                        trainer_type,
                        energy_type,
                        regulation_mark,
                        legal,
                        id,
                        local_id,
                        name,
                        image,
                    },
                )
            },
            _ => Err(DecodeError::Mismatch),
        }
    }
}

impl Card {
    /// The full image URL with the given quality and extension, where the
    /// card has an image.
    pub fn get_image_url(&self, quality: Quality, extension: Extension) -> (r: Option<String>)
        ensures
            match r {
                Option::Some(u) => self@.image is Some && u@ == self@.image->0 + "/"@
                    + quality.spec_code() + "."@ + extension.spec_code(),
                Option::None => self@.image is None,
            },
    {
        match &self.image {
            Option::Some(base) => Option::Some(build_image_url(base.as_str(), quality, extension)),
            Option::None => Option::None,
        }
    }
}

} // verus!
