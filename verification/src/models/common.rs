//! Common structures shared by the resource models.

use crate::endpoints::FromJson;
use crate::error::DecodeError;
use crate::json::opt_str;
use crate::json::opt_str_vec;
use crate::json::opt_u16;
use crate::json::req_bool;
use crate::json::req_str;
use crate::json::req_u16;
use crate::json::spec_opt_str;
use crate::json::spec_opt_str_vec;
use crate::json::spec_opt_u16;
use crate::json::spec_req_bool;
use crate::json::spec_req_str;
use crate::json::spec_req_u16;
use crate::json::JsonValue;
use vstd::prelude::*;

verus! {

/// Card legality information.
#[derive(Debug, Clone, Copy, PartialEq, Eq, Structural)]
pub struct Legal {
    /// Card is usable in standard format
    pub standard: bool,
    /// Card is usable in expanded format
    pub expanded: bool,
}

impl View for Legal {
    type V = Legal;

    open spec fn view(&self) -> Legal {
        *self
    }
}

impl DeepView for Legal {
    type V = Legal;

    open spec fn deep_view(&self) -> Legal {
        *self
    }
}

impl FromJson for Legal {
    open spec fn spec_from_json(v: JsonValue) -> Result<Legal, DecodeError> {
        match v {
            JsonValue::Obj(f) => match spec_req_bool(f@, "standard"@) {
                Ok(standard) => match spec_req_bool(f@, "expanded"@) {
                    Ok(expanded) => Ok(Legal { standard, expanded }),
                    Err(e) => Err(e),
                },
                Err(e) => Err(e),
            },
            _ => Err(DecodeError::Mismatch),
        }
    }

    fn from_json(v: &JsonValue) -> (r: Result<Legal, DecodeError>) {
        match v {
            JsonValue::Obj(f) => {
                let standard = match req_bool(f, "standard") {
                    Ok(b) => b,
                    Err(e) => return Err(e),
                };
                let expanded = match req_bool(f, "expanded") {
                    Ok(b) => b,
                    Err(e) => return Err(e),
                };
                Ok(Legal { standard, expanded })
            },
            _ => Err(DecodeError::Mismatch),
        }
    }
}

/// Card variants information.
#[derive(Debug, Clone, Copy, PartialEq, Eq, Structural)]
pub struct CardVariants {
    /// Basic variant (no special effects)
    pub normal: bool,
    /// Reverse holo variant
    pub reverse: bool,
    /// Holo variant
    pub holo: bool,
    /// First Edition variant
    pub first_edition: bool,
    /// W Promo variant
    pub w_promo: bool,
}

impl View for CardVariants {
    type V = CardVariants;

    open spec fn view(&self) -> CardVariants {
        *self
    }
}

impl DeepView for CardVariants {
    type V = CardVariants;

    open spec fn deep_view(&self) -> CardVariants {
        *self
    }
}

impl FromJson for CardVariants {
    open spec fn spec_from_json(v: JsonValue) -> Result<CardVariants, DecodeError> {
        match v {
            JsonValue::Obj(f) => match spec_req_bool(f@, "normal"@) {
                Ok(normal) => match spec_req_bool(f@, "reverse"@) {
                    Ok(reverse) => match spec_req_bool(f@, "holo"@) {
                        Ok(holo) => match spec_req_bool(f@, "firstEdition"@) {
                            Ok(first_edition) => match spec_req_bool(f@, "wPromo"@) {
                                Ok(w_promo) => Ok(
                                    CardVariants {
                                        normal,
                                        reverse,
                                        holo,
                                        first_edition,
                                        w_promo,
                                    },
                                ),
                                Err(e) => Err(e),
                            },
                            Err(e) => Err(e),
                        },
                        Err(e) => Err(e),
                    },
                    Err(e) => Err(e),
                },
                Err(e) => Err(e),
            },
            _ => Err(DecodeError::Mismatch),
        }
    }

    fn from_json(v: &JsonValue) -> (r: Result<CardVariants, DecodeError>) {
        match v {
            JsonValue::Obj(f) => {
                let normal = match req_bool(f, "normal") {
                    Ok(b) => b,
                    Err(e) => return Err(e),
                };
                let reverse = match req_bool(f, "reverse") {
                    Ok(b) => b,
                    Err(e) => return Err(e),
                };
                let holo = match req_bool(f, "holo") {
                    Ok(b) => b,
                    Err(e) => return Err(e),
                };
                let first_edition = match req_bool(f, "firstEdition") {
                    Ok(b) => b,
                    Err(e) => return Err(e),
                };
                let w_promo = match req_bool(f, "wPromo") {
                    Ok(b) => b,
                    Err(e) => return Err(e),
                };
                Ok(CardVariants { normal, reverse, holo, first_edition, w_promo })
            },
            _ => Err(DecodeError::Mismatch),
        }
    }
}

/// Set card count summary.
#[derive(Debug, Clone, Copy, PartialEq, Eq, Structural)]
pub struct SetCardCountResume {
    /// Total number of cards
    pub total: u16,
    /// Number of cards officially numbered
    pub official: u16,
}

impl View for SetCardCountResume {
    type V = SetCardCountResume;

    open spec fn view(&self) -> SetCardCountResume {
        *self
    }
}

impl DeepView for SetCardCountResume {
    type V = SetCardCountResume;

    open spec fn deep_view(&self) -> SetCardCountResume {
        *self
    }
}

impl FromJson for SetCardCountResume {
    open spec fn spec_from_json(v: JsonValue) -> Result<SetCardCountResume, DecodeError> {
        match v {
            JsonValue::Obj(f) => match spec_req_u16(f@, "total"@) {
                Ok(total) => match spec_req_u16(f@, "official"@) {
                    Ok(official) => Ok(SetCardCountResume { total, official }),
                    Err(e) => Err(e),
                },
                Err(e) => Err(e),
            },
            _ => Err(DecodeError::Mismatch),
        }
    }

    fn from_json(v: &JsonValue) -> (r: Result<SetCardCountResume, DecodeError>) {
        match v {
            JsonValue::Obj(f) => {
                let total = match req_u16(f, "total") {
                    Ok(n) => n,
                    Err(e) => return Err(e),
                };
                let official = match req_u16(f, "official") {
                    Ok(n) => n,
                    Err(e) => return Err(e),
                };
                Ok(SetCardCountResume { total, official })
            },
            _ => Err(DecodeError::Mismatch),
        }
    }
}

/// Set card count information.
#[derive(Debug, Clone, Copy, PartialEq, Eq, Structural)]
pub struct SetCardCount {
    /// Total number of cards
    pub total: u16,
    /// Number of cards officially numbered
    pub official: u16,
    /// Number of cards with normal variant
    pub normal: Option<u16>,
    /// Number of cards with reverse variant
    pub reverse: Option<u16>,
    /// Number of cards with holo variant
    pub holo: Option<u16>,
    /// Number of cards with first edition variant
    pub first_ed: Option<u16>,
}

impl View for SetCardCount {
    type V = SetCardCount;

    open spec fn view(&self) -> SetCardCount {
        *self
    }
}

impl DeepView for SetCardCount {
    type V = SetCardCount;

    open spec fn deep_view(&self) -> SetCardCount {
        *self
    }
}

impl FromJson for SetCardCount {
    open spec fn spec_from_json(v: JsonValue) -> Result<SetCardCount, DecodeError> {
        match v {
            JsonValue::Obj(f) => match spec_req_u16(f@, "total"@) {
                Ok(total) => match spec_req_u16(f@, "official"@) {
                    Ok(official) => match spec_opt_u16(f@, "normal"@) {
                        Ok(normal) => match spec_opt_u16(f@, "reverse"@) {
                            Ok(reverse) => match spec_opt_u16(f@, "holo"@) {
                                Ok(holo) => match spec_opt_u16(f@, "firstEd"@) {
                                    Ok(first_ed) => Ok(
                                        SetCardCount {
                                            total,
                                            official,
                                            normal,
                                            reverse,
                                            holo,
                                            first_ed,
                                        },
                                    ),
                                    Err(e) => Err(e),
                                },
                                Err(e) => Err(e),
                            },
                            Err(e) => Err(e),
                        },
                        Err(e) => Err(e),
                    },
                    Err(e) => Err(e),
                },
                Err(e) => Err(e),
            },
            _ => Err(DecodeError::Mismatch),
        }
    }

    fn from_json(v: &JsonValue) -> (r: Result<SetCardCount, DecodeError>) {
        match v {
            JsonValue::Obj(f) => {
                let total = match req_u16(f, "total") {
                    Ok(n) => n,
                    Err(e) => return Err(e),
                };
                let official = match req_u16(f, "official") {
                    Ok(n) => n,
                    Err(e) => return Err(e),
                };
                let normal = match opt_u16(f, "normal") {
                    Ok(n) => n,
                    Err(e) => return Err(e),
                };
                let reverse = match opt_u16(f, "reverse") {
                    Ok(n) => n,
                    Err(e) => return Err(e),
                };
                let holo = match opt_u16(f, "holo") {
                    Ok(n) => n,
                    Err(e) => return Err(e),
                };
                let first_ed = match opt_u16(f, "firstEd") {
                    Ok(n) => n,
                    Err(e) => return Err(e),
                };
                Ok(SetCardCount { total, official, normal, reverse, holo, first_ed })
            },
            _ => Err(DecodeError::Mismatch),
        }
    }
}

/// Card item information.
#[derive(Debug, Clone, PartialEq, Eq)]
pub struct CardItem {
    /// The item name
    pub name: Option<String>,
    /// The item effect
    pub effect: Option<String>,
}

/// The mathematical content of a `CardItem`.
pub struct CardItemView {
    /// The item name
    pub name: Option<Seq<char>>,
    /// The item effect
    pub effect: Option<Seq<char>>,
}

impl View for CardItem {
    type V = CardItemView;

    open spec fn view(&self) -> CardItemView {
        CardItemView { name: self.name.deep_view(), effect: self.effect.deep_view() }
    }
}

impl DeepView for CardItem {
    type V = CardItemView;

    open spec fn deep_view(&self) -> CardItemView {
        self.view()
    }
}

impl FromJson for CardItem {
    open spec fn spec_from_json(v: JsonValue) -> Result<CardItemView, DecodeError> {
        match v {
            JsonValue::Obj(f) => match spec_opt_str(f@, "name"@) {
                Ok(name) => match spec_opt_str(f@, "effect"@) {
                    Ok(effect) => Ok(CardItemView { name, effect }),
                    Err(e) => Err(e),
                },
                Err(e) => Err(e),
            },
            _ => Err(DecodeError::Mismatch),
        }
    }

    fn from_json(v: &JsonValue) -> (r: Result<CardItem, DecodeError>) {
        match v {
            JsonValue::Obj(f) => {
                let name = match opt_str(f, "name") {
                    Ok(s) => s,
                    Err(e) => return Err(e),
                };
                let effect = match opt_str(f, "effect") {
                    Ok(s) => s,
                    Err(e) => return Err(e),
                };
                Ok(CardItem { name, effect })
            },
            _ => Err(DecodeError::Mismatch),
        }
    }
}

/// Card ability information.
#[derive(Debug, Clone, PartialEq, Eq)]
pub struct CardAbility {
    /// The ability type (e.g., "Pokemon Power", "Ability"); its wire field
    /// is named `type`.
    pub type_: String,
    /// Name of the ability
    pub name: Option<String>,
    /// Description/Effect of the ability
    pub effect: Option<String>,
}

/// The mathematical content of a `CardAbility`.
pub struct CardAbilityView {
    /// The ability type
    pub type_: Seq<char>,
    /// Name of the ability
    pub name: Option<Seq<char>>,
    /// Description/Effect of the ability
    pub effect: Option<Seq<char>>,
}

impl View for CardAbility {
    type V = CardAbilityView;

    open spec fn view(&self) -> CardAbilityView {
        CardAbilityView {
            type_: self.type_@,
            name: self.name.deep_view(),
            effect: self.effect.deep_view(),
        }
    }
}

impl DeepView for CardAbility {
    type V = CardAbilityView;

    open spec fn deep_view(&self) -> CardAbilityView {
        self.view()
    }
}

impl FromJson for CardAbility {
    open spec fn spec_from_json(v: JsonValue) -> Result<CardAbilityView, DecodeError> {
        match v {
            JsonValue::Obj(f) => match spec_req_str(f@, "type"@) {
                Ok(type_) => match spec_opt_str(f@, "name"@) {
                    Ok(name) => match spec_opt_str(f@, "effect"@) {
                        Ok(effect) => Ok(CardAbilityView { type_, name, effect }),
                        Err(e) => Err(e),
                    },
                    Err(e) => Err(e),
                },
                Err(e) => Err(e),
            },
            _ => Err(DecodeError::Mismatch),
        }
    }

    fn from_json(v: &JsonValue) -> (r: Result<CardAbility, DecodeError>) {
        match v {
            JsonValue::Obj(f) => {
                let type_ = match req_str(f, "type") {
                    Ok(s) => s,
                    Err(e) => return Err(e),
                };
                let name = match opt_str(f, "name") {
                    Ok(s) => s,
                    Err(e) => return Err(e),
                };
                let effect = match opt_str(f, "effect") {
                    Ok(s) => s,
                    Err(e) => return Err(e),
                };
                Ok(CardAbility { type_, name, effect })
            },
            _ => Err(DecodeError::Mismatch),
        }
    }
}

/// Card weakness/resistance information.
#[derive(Debug, Clone, PartialEq, Eq)]
pub struct CardWeakRes {
    /// The affecting energy type; its wire field is named `type`.
    pub type_: String,
    /// The multiplier/value (e.g., "x2", "-30")
    pub value: Option<String>,
}

/// The mathematical content of a `CardWeakRes`.
pub struct CardWeakResView {
    /// The affecting energy type
    pub type_: Seq<char>,
    /// The multiplier/value
    pub value: Option<Seq<char>>,
}

impl View for CardWeakRes {
    type V = CardWeakResView;

    open spec fn view(&self) -> CardWeakResView {
        CardWeakResView { type_: self.type_@, value: self.value.deep_view() }
    }
}

impl DeepView for CardWeakRes {
    type V = CardWeakResView;

    open spec fn deep_view(&self) -> CardWeakResView {
        self.view()
    }
}

impl FromJson for CardWeakRes {
    open spec fn spec_from_json(v: JsonValue) -> Result<CardWeakResView, DecodeError> {
        match v {
            JsonValue::Obj(f) => match spec_req_str(f@, "type"@) {
                Ok(type_) => match spec_opt_str(f@, "value"@) {
                    Ok(value) => Ok(CardWeakResView { type_, value }),
                    Err(e) => Err(e),
                },
                Err(e) => Err(e),
            },
            _ => Err(DecodeError::Mismatch),
        }
    }

    fn from_json(v: &JsonValue) -> (r: Result<CardWeakRes, DecodeError>) {
        match v {
            JsonValue::Obj(f) => {
                let type_ = match req_str(f, "type") {
                    Ok(s) => s,
                    Err(e) => return Err(e),
                };
                let value = match opt_str(f, "value") {
                    Ok(s) => s,
                    Err(e) => return Err(e),
                };
                Ok(CardWeakRes { type_, value })
            },
            _ => Err(DecodeError::Mismatch),
        }
    }
}

/// Damage an attack deals: a plain number, or a formula such as `20x`.
#[derive(Debug, Clone, PartialEq, Eq)]
pub enum Damage {
    /// A plain amount.
    Number(u16),
    /// A formula text.
    Formula(String),
}

/// The mathematical content of a `Damage`.
pub enum DamageView {
    /// A plain amount.
    Number(u16),
    /// A formula text.
    Formula(Seq<char>),
}

impl View for Damage {
    type V = DamageView;

    open spec fn view(&self) -> DamageView {
        match *self {
            Damage::Number(n) => DamageView::Number(n),
            Damage::Formula(ref s) => DamageView::Formula(s@),
        }
    }
}

impl DeepView for Damage {
    type V = DamageView;

    open spec fn deep_view(&self) -> DamageView {
        self.view()
    }
}

impl FromJson for Damage {
    /// The wire form is untagged: a number within `u16` range is an amount,
    /// a string is a formula, and anything else (a number out of range
    /// included) matches neither form.
    open spec fn spec_from_json(v: JsonValue) -> Result<DamageView, DecodeError> {
        match v {
            JsonValue::UInt(n) => if n <= u16::MAX as u64 {
                Ok(DamageView::Number(n as u16))
            } else {
                Err(DecodeError::Mismatch)
            },
            JsonValue::Str(s) => Ok(DamageView::Formula(s@)),
            _ => Err(DecodeError::Mismatch),
        }
    }

    fn from_json(v: &JsonValue) -> (r: Result<Damage, DecodeError>) {
        match v {
            JsonValue::UInt(n) => if *n <= u16::MAX as u64 {
                Ok(Damage::Number(*n as u16))
            } else {
                Err(DecodeError::Mismatch)
            },
            JsonValue::Str(s) => Ok(Damage::Formula(s.clone())),
            _ => Err(DecodeError::Mismatch),
        }
    }
}

/// Card attack information.
#[derive(Debug, Clone, PartialEq, Eq)]
pub struct CardAttack {
    /// Name of the attack
    pub name: Option<String>,
    /// Cost of the attack (energy types)
    pub cost: Option<Vec<String>>,
    /// Effect/Description of the attack
    pub effect: Option<String>,
    /// Damage the attack deals (numeric or formula)
    pub damage: Option<Damage>,
}

/// The mathematical content of a `CardAttack`.
pub struct CardAttackView {
    /// Name of the attack
    pub name: Option<Seq<char>>,
    /// Cost of the attack
    pub cost: Option<Seq<Seq<char>>>,
    /// Effect/Description of the attack
    pub effect: Option<Seq<char>>,
    /// Damage the attack deals
    pub damage: Option<DamageView>,
}

impl View for CardAttack {
    type V = CardAttackView;

    open spec fn view(&self) -> CardAttackView {
        CardAttackView {
            name: self.name.deep_view(),
            cost: self.cost.deep_view(),
            effect: self.effect.deep_view(),
            damage: self.damage.deep_view(),
        }
    }
}

impl DeepView for CardAttack {
    type V = CardAttackView;

    open spec fn deep_view(&self) -> CardAttackView {
        self.view()
    }
}

impl FromJson for CardAttack {
    open spec fn spec_from_json(v: JsonValue) -> Result<CardAttackView, DecodeError> {
        match v {
            JsonValue::Obj(f) => match spec_opt_str(f@, "name"@) {
                Ok(name) => match spec_opt_str_vec(f@, "cost"@) {
                    Ok(cost) => match spec_opt_str(f@, "effect"@) {
                        Ok(effect) => match crate::endpoints::spec_opt_entity::<Damage>(
                            f@,
                            "damage"@,
                        ) {
                            Ok(damage) => Ok(CardAttackView { name, cost, effect, damage }),
                            Err(e) => Err(e),
                        },
                        Err(e) => Err(e),
                    },
                    Err(e) => Err(e),
                },
                Err(e) => Err(e),
            },
            _ => Err(DecodeError::Mismatch),
        }
    }

    fn from_json(v: &JsonValue) -> (r: Result<CardAttack, DecodeError>) {
        match v {
            JsonValue::Obj(f) => {
                let name = match opt_str(f, "name") {
                    Ok(s) => s,
                    Err(e) => return Err(e),
                };
                let cost = match opt_str_vec(f, "cost") {
                    Ok(c) => c,
                    Err(e) => return Err(e),
                };
                let effect = match opt_str(f, "effect") {
                    Ok(s) => s,
                    Err(e) => return Err(e),
                };
                let damage = match crate::endpoints::opt_entity::<Damage>(f, "damage") {
                    Ok(d) => d,
                    Err(e) => return Err(e),
                };
                Ok(CardAttack { name, cost, effect, damage })
            },
            _ => Err(DecodeError::Mismatch),
        }
    }
}

} // verus!
