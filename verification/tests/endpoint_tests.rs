//! Tests for URL composition and response handling on the generic endpoint.

use tcgdex_sdk::compose_base_url;
use tcgdex_sdk::Card;
use tcgdex_sdk::CardResume;
use tcgdex_sdk::CardSet;
use tcgdex_sdk::Endpoint;
use tcgdex_sdk::Error;
use tcgdex_sdk::Extension;
use tcgdex_sdk::IntList;
use tcgdex_sdk::Language;
use tcgdex_sdk::Quality;
use tcgdex_sdk::Query;
use tcgdex_sdk::SetResume;
use tcgdex_sdk::StringEndpoint;
use tcgdex_sdk::StringList;

fn cards_endpoint() -> Endpoint<Card, CardResume> {
    Endpoint::new("https://api.example/v2/en", "cards")
}

#[test]
fn get_url_interpolates_and_escapes_spaces() {
    let endpoint = cards_endpoint();
    assert_eq!(
        endpoint.get_url("base1-4"),
        "https://api.example/v2/en/cards/base1-4"
    );
    assert_eq!(
        endpoint.get_url("card name"),
        "https://api.example/v2/en/cards/card%20name"
    );
}

#[test]
fn list_url_appends_query_verbatim() {
    let endpoint = cards_endpoint();
    assert_eq!(
        endpoint.list_url(None),
        "https://api.example/v2/en/cards"
    );

    let empty = Query::new();
    assert_eq!(
        endpoint.list_url(Some(&empty)),
        "https://api.example/v2/en/cards"
    );

    let mut query = Query::new();
    query.equal("types", "Fire");
    query.limit(5);
    assert_eq!(
        endpoint.list_url(Some(&query)),
        "https://api.example/v2/en/cards?types=eq%3AFire&pagination%3AitemsPerPage=5"
    );
}

#[test]
fn set_base_url_affects_later_urls_only() {
    let mut endpoint = cards_endpoint();
    let before = endpoint.get_url("base1-4");
    endpoint.set_base_url("https://api.example/v2/fr");
    assert_eq!(before, "https://api.example/v2/en/cards/base1-4");
    assert_eq!(
        endpoint.get_url("base1-4"),
        "https://api.example/v2/fr/cards/base1-4"
    );
}

#[test]
fn compose_base_url_uses_language_code() {
    assert_eq!(
        compose_base_url("https://api.tcgdex.net/v2", Language::EN),
        "https://api.tcgdex.net/v2/en"
    );
    assert_eq!(
        compose_base_url("https://api.tcgdex.net/v2", Language::ZH_TW),
        "https://api.tcgdex.net/v2/zh-tw"
    );
    assert_eq!(Language::default(), Language::EN);
}

#[test]
fn non_success_status_is_a_status_error() {
    let endpoint = cards_endpoint();
    let body = br#"{"anything": true}"#;
    assert_eq!(
        endpoint.decode_get(404, body).unwrap_err(),
        Error::Status(404)
    );
    assert_eq!(
        endpoint.decode_list(500, br#"[]"#).unwrap_err(),
        Error::Status(500)
    );
    // The redirection class is not a success either.
    assert_eq!(
        endpoint.decode_get(301, body).unwrap_err(),
        Error::Status(301)
    );
}

#[test]
fn success_with_unusable_body_is_no_data() {
    let endpoint = cards_endpoint();
    assert_eq!(
        endpoint.decode_get(200, b"not json").unwrap_err(),
        Error::NoData
    );
    assert_eq!(
        endpoint.decode_list(200, b"").unwrap_err(),
        Error::NoData
    );
}

#[test]
fn list_decodes_empty_and_flexible_elements() {
    let endpoint: Endpoint<StringEndpoint, StringList> =
        Endpoint::new("https://api.example/v2/en", "types");

    // An empty result set is a valid success.
    let empty = endpoint.decode_list(200, b"[]").unwrap();
    assert!(empty.is_empty());

    // Each element may be a bare scalar or an array.
    let lists = endpoint
        .decode_list(200, br#"["Fire",["Water","Grass"]]"#)
        .unwrap();
    assert_eq!(lists.len(), 2);
    assert_eq!(lists[0].inner(), &vec!["Fire".to_string()]);
    assert_eq!(
        lists[1].inner(),
        &vec!["Water".to_string(), "Grass".to_string()]
    );
    assert!(lists.iter().any(|l| l.contains("Fire")));
}

#[test]
fn int_list_decodes_through_list_endpoint() {
    let endpoint: Endpoint<StringEndpoint, IntList> =
        Endpoint::new("https://api.example/v2/en", "dex-ids");
    let lists = endpoint.decode_list(200, br#"[5,"6",[7,8]]"#).unwrap();
    assert_eq!(lists[0].inner(), &vec![5]);
    assert_eq!(lists[1].inner(), &vec![6]);
    assert_eq!(lists[2].inner(), &vec![7, 8]);
}

#[test]
fn get_decodes_item_body() {
    let endpoint: Endpoint<CardSet, SetResume> =
        Endpoint::new("https://api.example/v2/en", "sets");
    let body = r#"{"id":"base1","name":"Base Set","releaseDate":"1999-01-09","cardCount":{"total":102,"official":102},"serie":{"id":"base","name":"Base"},"legal":{"standard":false,"expanded":false},"cards":[]}"#;
    let set = endpoint.decode_get(200, body.as_bytes()).unwrap();
    assert_eq!(set.name, "Base Set");
    assert!(set.cards.is_empty());

    // A body of the wrong shape is a decode error, distinct from NoData.
    let wrong = endpoint.decode_get(200, b"[1,2,3]").unwrap_err();
    assert!(matches!(wrong, Error::Decode(_)));
}

#[test]
fn image_url_builders() {
    assert_eq!(
        tcgdex_sdk::build_image_url("https://assets.example/base1/4", Quality::HIGH, Extension::PNG),
        "https://assets.example/base1/4/high.png"
    );
    assert_eq!(
        tcgdex_sdk::build_logo_url("https://assets.example/base1/logo", Extension::WEBP),
        "https://assets.example/base1/logo.webp"
    );

    let card = Card {
        illustrator: None,
        rarity: "Rare".to_string(),
        category: "Pokemon".to_string(),
        variants: tcgdex_sdk::CardVariants {
            normal: true,
            reverse: false,
            holo: false,
            first_edition: false,
            w_promo: false,
        },
        set: SetResume {
            id: "base1".to_string(),
            name: "Base Set".to_string(),
            logo: None,
            symbol: None,
            card_count: tcgdex_sdk::SetCardCountResume { total: 102, official: 102 },
        },
        dex_ids: None,
        hp: Some(120),
        types: None,
        evolves_from: None,
        description: None,
        level: None,
        stage: None,
        suffix: None,
        item: None,
        abilities: None,
        attacks: None,
        weaknesses: None,
        resistances: None,
        retreat: None,
        effect: None,
        trainer_type: None,
        energy_type: None,
        regulation_mark: None,
        legal: tcgdex_sdk::Legal { standard: false, expanded: false },
        id: "base1-4".to_string(),
        local_id: "4".to_string(),
        name: "Charizard".to_string(),
        image: Some("https://assets.example/base1/4".to_string()),
    };
    let url = card.get_image_url(Quality::HIGH, Extension::PNG).unwrap();
    assert!(url.ends_with("/high.png"));
    assert_eq!(url, "https://assets.example/base1/4/high.png");
    assert_eq!(
        card.set.get_logo_url(Extension::PNG),
        None
    );
}
