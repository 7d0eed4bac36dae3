//! Set model: full information about a specific set.

use crate::endpoints::req_entity;
use crate::endpoints::req_entity_vec;
use crate::endpoints::spec_req_entity;
use crate::endpoints::spec_req_entity_vec;
use crate::endpoints::FromJson;
use crate::error::DecodeError;
use crate::json::opt_str;
use crate::json::req_str;
use crate::json::spec_opt_str;
use crate::json::spec_req_str;
use crate::json::JsonValue;
use crate::models::CardResume;
use crate::models::CardResumeView;
use crate::models::Extension;
use crate::models::Legal;
use crate::models::SerieResume;
use crate::models::SerieResumeView;
use crate::models::SetCardCountResume;
use crate::utils::build_logo_url;
use vstd::prelude::*;

verus! {

/// Full information about a specific set.
#[derive(Debug, Clone, PartialEq, Eq)]
pub struct CardSet {
    /// Globally unique set ID
    pub id: String,
    /// The set name
    pub name: String,
    /// The set logo URL (without extension)
    pub logo: Option<String>,
    /// The set symbol URL (without extension)
    pub symbol: Option<String>,
    /// The number of cards in the set; its wire field is `cardCount`
    pub card_count: SetCardCountResume,
    /// The serie this set is a part of
    pub serie: SerieResume,
    /// The TCG Online code; its wire field is `tcgOnline`
    pub tcg_online: Option<String>,
    /// The set release date as yyyy-mm-dd; its wire field is `releaseDate`
    pub release_date: String,
    /// The set legality information
    pub legal: Legal,
    /// The cards contained in this set
    pub cards: Vec<CardResume>,
}

/// The mathematical content of a `CardSet`.
pub struct CardSetView {
    /// Globally unique set ID
    pub id: Seq<char>,
    /// The set name
    pub name: Seq<char>,
    /// The set logo URL
    pub logo: Option<Seq<char>>,
    /// The set symbol URL
    pub symbol: Option<Seq<char>>,
    /// The number of cards in the set
    pub card_count: SetCardCountResume,
    /// The serie this set is a part of
    pub serie: SerieResumeView,
    /// The TCG Online code
    pub tcg_online: Option<Seq<char>>,
    /// The set release date
    pub release_date: Seq<char>,
    /// The set legality information
    pub legal: Legal,
    /// The cards contained in this set
    pub cards: Seq<CardResumeView>,
}

impl View for CardSet {
    type V = CardSetView;

    open spec fn view(&self) -> CardSetView {
        CardSetView {
            id: self.id@,
            name: self.name@,
            logo: self.logo.deep_view(),
            symbol: self.symbol.deep_view(),
            card_count: self.card_count,
            serie: self.serie@,
            tcg_online: self.tcg_online.deep_view(),
            release_date: self.release_date@,
            legal: self.legal,
            cards: self.cards.deep_view(),
        }
    }
}

impl DeepView for CardSet {
    type V = CardSetView;

    open spec fn deep_view(&self) -> CardSetView {
        self.view()
    }
}

impl FromJson for CardSet {
    open spec fn spec_from_json(v: JsonValue) -> Result<CardSetView, DecodeError> {
        match v {
            JsonValue::Obj(f) => match spec_req_str(f@, "id"@) {
                Ok(id) => match spec_req_str(f@, "name"@) {
                    Ok(name) => match spec_opt_str(f@, "logo"@) {
                        Ok(logo) => match spec_opt_str(f@, "symbol"@) {
                            Ok(symbol) => match spec_req_entity::<SetCardCountResume>(
                                f@,
                                "cardCount"@,
                            ) {
                                Ok(card_count) => match spec_req_entity::<SerieResume>(
                                    f@,
                                    "serie"@,
                                ) {
                                    Ok(serie) => match spec_opt_str(f@, "tcgOnline"@) {
                                        Ok(tcg_online) => match spec_req_str(f@, "releaseDate"@) {
                                            Ok(release_date) => match spec_req_entity::<Legal>(
                                                f@,
                                                "legal"@,
                                            ) {
                                                Ok(legal) => match spec_req_entity_vec::<
                                                    CardResume,
                                                >(f@, "cards"@) {
                                                    Ok(cards) => Ok(
                                                        CardSetView {
                                                            id,
                                                            name,
                                                            logo,
                                                            symbol,
                                                            card_count,
                                                            serie,
                                                            tcg_online,
                                                            release_date,
                                                            legal,
                                                            cards,
                                                        },
                                                    ),
                                                    Err(e) => Err(e),
                                                },
                                                Err(e) => Err(e),
                                            },
                                            Err(e) => Err(e),
                                        },
                                        Err(e) => Err(e),
                                    },
                                    Err(e) => Err(e),
                                },
                                Err(e) => Err(e),
                            },
                            Err(e) => Err(e),
                        },
                        Err(e) => Err(e),
                    },
                    Err(e) => Err(e),
                },
                Err(e) => Err(e),
            },
            _ => Err(DecodeError::Mismatch),
        }
    }

    fn from_json(v: &JsonValue) -> (r: Result<CardSet, DecodeError>) {
        match v {
            JsonValue::Obj(f) => {
                let id = match req_str(f, "id") {
                    Ok(s) => s,
                    Err(e) => return Err(e),
                };
                let name = match req_str(f, "name") {
                    Ok(s) => s,
                    Err(e) => return Err(e),
                };
                let logo = match opt_str(f, "logo") {
                    Ok(s) => s,
                    Err(e) => return Err(e),
                };
                let symbol = match opt_str(f, "symbol") {
                    Ok(s) => s,
                    Err(e) => return Err(e),
                };
                let card_count = match req_entity::<SetCardCountResume>(f, "cardCount") {
                    Ok(c) => c,
                    Err(e) => return Err(e),
                };
                let serie = match req_entity::<SerieResume>(f, "serie") {
                    Ok(s) => s,
                    Err(e) => return Err(e),
                };
                let tcg_online = match opt_str(f, "tcgOnline") {
                    Ok(s) => s,
                    Err(e) => return Err(e),
                };
                let release_date = match req_str(f, "releaseDate") {
                    Ok(s) => s,
                    Err(e) => return Err(e),
                };
                let legal = match req_entity::<Legal>(f, "legal") {
                    Ok(l) => l,
                    Err(e) => return Err(e),
                };
                let cards = match req_entity_vec::<CardResume>(f, "cards") {
                    Ok(c) => c,
                    Err(e) => return Err(e),
                };
                Ok(
                    CardSet {
                        id,
                        name,
                        logo,
                        symbol,
                        card_count,
                        serie,
                        tcg_online,
                        release_date,
                        legal,
                        cards,
                    },
                )
            },
            _ => Err(DecodeError::Mismatch),
        }
    }
}

impl CardSet {
    /// The full logo URL with the given extension, where the set has a logo.
    pub fn get_logo_url(&self, extension: Extension) -> (r: Option<String>)
        ensures
            match r {
                Option::Some(u) => self@.logo is Some && u@ == self@.logo->0 + "."@
                    + extension.spec_code(),
                Option::None => self@.logo is None,
            },
    {
        match &self.logo {
            Option::Some(base) => Option::Some(build_logo_url(base.as_str(), extension)),
            Option::None => Option::None,
        }
    }

    /// The full symbol URL with the given extension, where the set has a
    /// symbol.
    pub fn get_symbol_url(&self, extension: Extension) -> (r: Option<String>)
        ensures
            match r {
                Option::Some(u) => self@.symbol is Some && u@ == self@.symbol->0 + "."@
                    + extension.spec_code(),
                Option::None => self@.symbol is None,
            },
    {
        match &self.symbol {
            Option::Some(base) => Option::Some(build_logo_url(base.as_str(), extension)),
            Option::None => Option::None,
        }
    }
}

} // verus!
