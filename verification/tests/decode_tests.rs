//! Tests for the flexible scalar-or-list decoders and the entity decoders.

use tcgdex_sdk::parse_json;
use tcgdex_sdk::Card;
use tcgdex_sdk::CardSet;
use tcgdex_sdk::Damage;
use tcgdex_sdk::DecodeError;
use tcgdex_sdk::FromJson;
use tcgdex_sdk::IntList;
use tcgdex_sdk::JsonValue;
use tcgdex_sdk::Serie;
use tcgdex_sdk::StringEndpoint;
use tcgdex_sdk::StringList;

fn parsed(body: &[u8]) -> JsonValue {
    parse_json(body).expect("body should be well-formed JSON")
}

#[test]
fn string_list_scalar_and_array_agree() {
    let from_scalar = StringList::from_json(&parsed(b"\"Fire\"")).unwrap();
    let from_array = StringList::from_json(&parsed(b"[\"Fire\"]")).unwrap();
    assert_eq!(from_scalar, from_array);
    assert_eq!(from_scalar.inner(), &vec!["Fire".to_string()]);
}

#[test]
fn string_list_preserves_order_and_duplicates() {
    let list = StringList::from_json(&parsed(b"[\"Fire\",\"Water\",\"Fire\"]")).unwrap();
    assert_eq!(
        list.inner(),
        &vec!["Fire".to_string(), "Water".to_string(), "Fire".to_string()]
    );
    assert_eq!(list.len(), 3);
    assert!(!list.is_empty());
    assert!(list.contains("Water"));
    assert!(!list.contains("Grass"));
}

#[test]
fn string_list_rejects_other_shapes() {
    assert_eq!(
        StringList::from_json(&parsed(b"5")),
        Err(DecodeError::Mismatch)
    );
    assert_eq!(
        StringList::from_json(&parsed(b"[\"Fire\",5]")),
        Err(DecodeError::Mismatch)
    );
    assert_eq!(
        StringList::from_json(&parsed(b"{\"a\":1}")),
        Err(DecodeError::Mismatch)
    );
}

#[test]
fn int_list_scalar_text_and_array_agree() {
    let from_number = IntList::from_json(&parsed(b"5")).unwrap();
    let from_text = IntList::from_json(&parsed(b"\"5\"")).unwrap();
    let from_array = IntList::from_json(&parsed(b"[5]")).unwrap();
    assert_eq!(from_number, from_text);
    assert_eq!(from_number, from_array);
    assert_eq!(from_number.inner(), &vec![5]);
}

#[test]
fn int_list_rejects_bad_text_and_range() {
    // An unparseable text is a type mismatch, never a silent empty list.
    assert_eq!(
        IntList::from_json(&parsed(b"\"notanumber\"")),
        Err(DecodeError::Mismatch)
    );
    // 2^32 does not fit an unsigned 32-bit value.
    assert_eq!(
        IntList::from_json(&parsed(b"4294967296")),
        Err(DecodeError::OutOfRange)
    );
    assert_eq!(
        IntList::from_json(&parsed(b"[1,4294967296]")),
        Err(DecodeError::OutOfRange)
    );
    assert_eq!(
        IntList::from_json(&parsed(b"-5")),
        Err(DecodeError::Mismatch)
    );
}

#[test]
fn int_list_reads() {
    let list = IntList::from_json(&parsed(b"[25,26,25]")).unwrap();
    assert_eq!(list.inner(), &vec![25, 26, 25]);
    assert_eq!(list.len(), 3);
    assert!(!list.is_empty());
    assert!(list.contains(26));
    assert!(!list.contains(27));
    let empty = IntList::from_json(&parsed(b"[]")).unwrap();
    assert!(empty.is_empty());
    assert_eq!(empty.len(), 0);
}

fn card_body(hp_json: &str) -> Vec<u8> {
    let head = r#"{"category":"Pokemon","id":"base1-4","localId":"4","name":"Charizard","rarity":"Rare","types":["Fire"],"variants":{"normal":true,"reverse":false,"holo":true,"firstEdition":false,"wPromo":false},"set":{"id":"base1","name":"Base Set","cardCount":{"total":102,"official":102}},"legal":{"standard":false,"expanded":false},"hp":"#;
    format!("{}{}{}", head, hp_json, "}").into_bytes()
}

#[test]
fn card_decodes_with_numeric_hp() {
    let card = Card::from_json(&parsed(&card_body("120"))).unwrap();
    assert_eq!(card.name, "Charizard");
    assert_eq!(card.hp, Some(120));
    assert_eq!(card.id, "base1-4");
    assert_eq!(card.local_id, "4");
    assert_eq!(card.types, Some(vec!["Fire".to_string()]));
    assert_eq!(card.set.name, "Base Set");
    assert_eq!(card.set.card_count.total, 102);
    assert!(card.variants.holo);
    assert!(!card.legal.standard);
    assert_eq!(card.illustrator, None);
    assert_eq!(card.image, None);
}

#[test]
fn card_hp_leniency_and_range() {
    // A text that fails to parse leaves HP absent; it is not an error.
    let lenient = Card::from_json(&parsed(&card_body("\"abc\""))).unwrap();
    assert_eq!(lenient.hp, None);

    // A text that parses is taken.
    let parsed_text = Card::from_json(&parsed(&card_body("\"120\""))).unwrap();
    assert_eq!(parsed_text.hp, Some(120));

    // A numeric value beyond the signed 32-bit range is a hard error.
    let out_of_range = Card::from_json(&parsed(&card_body("2147483648")));
    assert_eq!(out_of_range, Err(DecodeError::OutOfRange));

    // The same value as text does not parse as an i32, so it is lenient.
    let text_out_of_range = Card::from_json(&parsed(&card_body("\"2147483648\""))).unwrap();
    assert_eq!(text_out_of_range.hp, None);
}

#[test]
fn card_missing_required_field_fails() {
    let body = b"{\"id\":\"base1-4\",\"localId\":\"4\",\"name\":\"Charizard\"}";
    assert_eq!(
        Card::from_json(&parsed(body)),
        Err(DecodeError::MissingField)
    );
}

#[test]
fn card_attack_damage_forms() {
    let body = br#"{"name":"Fire Spin","cost":["Fire","Fire"],"damage":100}"#;
    let attack = tcgdex_sdk::CardAttack::from_json(&parsed(body)).unwrap();
    assert_eq!(attack.damage, Some(Damage::Number(100)));
    assert_eq!(
        attack.cost,
        Some(vec!["Fire".to_string(), "Fire".to_string()])
    );

    let formula = br#"{"damage":"20x"}"#;
    let attack = tcgdex_sdk::CardAttack::from_json(&parsed(formula)).unwrap();
    assert_eq!(attack.damage, Some(Damage::Formula("20x".to_string())));
    assert_eq!(attack.name, None);
}

#[test]
fn set_and_serie_decode() {
    let set_body = r#"{"id":"base1","name":"Base Set","releaseDate":"1999-01-09","cardCount":{"total":102,"official":102},"serie":{"id":"base","name":"Base"},"legal":{"standard":false,"expanded":false},"cards":[{"id":"base1-4","localId":"4","name":"Charizard"}]}"#;
    let set = CardSet::from_json(&parsed(set_body.as_bytes())).unwrap();
    assert_eq!(set.name, "Base Set");
    assert_eq!(set.serie.id, "base");
    assert_eq!(set.cards.len(), 1);
    assert_eq!(set.cards[0].name, "Charizard");
    assert_eq!(set.tcg_online, None);

    let serie_body = r#"{"id":"base","name":"Base","sets":[{"id":"base1","name":"Base Set","cardCount":{"total":102,"official":102}}]}"#;
    let serie = Serie::from_json(&parsed(serie_body.as_bytes())).unwrap();
    assert_eq!(serie.name, "Base");
    assert_eq!(serie.sets.len(), 1);
    assert_eq!(serie.sets[0].card_count.official, 102);
}

#[test]
fn string_endpoint_decodes() {
    let body = r#"{"name":"Fire","cards":[{"id":"base1-4","localId":"4","name":"Charizard"},{"id":"base1-46","localId":"46","name":"Charmander"}]}"#;
    let fire = StringEndpoint::from_json(&parsed(body.as_bytes())).unwrap();
    assert_eq!(fire.name, "Fire");
    assert_eq!(fire.cards.len(), 2);
    assert_eq!(fire.cards[1].local_id, "46");
}

#[test]
fn malformed_body_is_no_document() {
    assert!(parse_json(b"{not json").is_none());
    assert!(parse_json(b"").is_none());
    assert!(parse_json(b"null").is_some());
}

#[test]
fn full_card_decodes_every_field() {
    let body = r#"{
        "illustrator": "Mitsuhiro Arita",
        "rarity": "Rare",
        "category": "Pokemon",
        "variants": {"normal": false, "reverse": true, "holo": true, "firstEdition": true, "wPromo": false},
        "set": {"id": "base1", "name": "Base Set", "logo": "https://assets.example/base1/logo",
                "symbol": "https://assets.example/base1/symbol",
                "cardCount": {"total": 102, "official": 102}},
        "dexIDs": [6],
        "hp": 120,
        "types": ["Fire"],
        "evolvesFrom": "Charmeleon",
        "description": "Spits fire.",
        "level": "76",
        "stage": "Stage2",
        "suffix": "EX",
        "item": {"name": "Berry", "effect": "Heals."},
        "abilities": [{"type": "Poke-POWER", "name": "Energy Burn", "effect": "Burns."}],
        "attacks": [{"cost": ["Fire", "Fire", "Fire", "Fire"], "name": "Fire Spin",
                     "effect": "Discard 2 Energy.", "damage": 100}],
        "weaknesses": [{"type": "Water", "value": "x2"}],
        "resistances": [{"type": "Fighting", "value": "-30"}],
        "retreat": 3,
        "effect": null,
        "trainerType": null,
        "energyType": null,
        "regulationMark": "D",
        "legal": {"standard": false, "expanded": true},
        "id": "base1-4",
        "localId": "4",
        "name": "Charizard",
        "image": "https://assets.example/base1/4"
    }"#;
    let card = Card::from_json(&parsed(body.as_bytes())).unwrap();
    assert_eq!(card.illustrator, Some("Mitsuhiro Arita".to_string()));
    assert_eq!(card.dex_ids, Some(vec![6]));
    assert_eq!(card.evolves_from, Some("Charmeleon".to_string()));
    assert_eq!(card.level, Some("76".to_string()));
    assert_eq!(card.stage, Some("Stage2".to_string()));
    assert_eq!(card.suffix, Some("EX".to_string()));
    let item = card.item.as_ref().unwrap();
    assert_eq!(item.name, Some("Berry".to_string()));
    let abilities = card.abilities.as_ref().unwrap();
    assert_eq!(abilities.len(), 1);
    assert_eq!(abilities[0].type_, "Poke-POWER");
    let attacks = card.attacks.as_ref().unwrap();
    assert_eq!(attacks[0].damage, Some(Damage::Number(100)));
    assert_eq!(attacks[0].cost.as_ref().unwrap().len(), 4);
    let weaknesses = card.weaknesses.as_ref().unwrap();
    assert_eq!(weaknesses[0].type_, "Water");
    assert_eq!(weaknesses[0].value, Some("x2".to_string()));
    let resistances = card.resistances.as_ref().unwrap();
    assert_eq!(resistances[0].value, Some("-30".to_string()));
    assert_eq!(card.retreat, Some(3));
    assert_eq!(card.effect, None);
    assert_eq!(card.trainer_type, None);
    assert_eq!(card.regulation_mark, Some("D".to_string()));
    assert!(card.legal.expanded);
    assert!(card.variants.first_edition);
    assert_eq!(card.image, Some("https://assets.example/base1/4".to_string()));
}

#[test]
fn int_endpoint_decodes() {
    let body = r#"{"name": 120, "cards": [{"id": "base1-4", "localId": "4", "name": "Charizard"}]}"#;
    let hp = tcgdex_sdk::IntEndpoint::from_json(&parsed(body.as_bytes())).unwrap();
    assert_eq!(hp.name, 120);
    assert_eq!(hp.cards.len(), 1);

    let bad = r#"{"name": "120", "cards": []}"#;
    assert_eq!(
        tcgdex_sdk::IntEndpoint::from_json(&parsed(bad.as_bytes())),
        Err(DecodeError::Mismatch)
    );
}

#[test]
fn set_card_count_optional_fields() {
    let body = r#"{"total": 102, "official": 102, "normal": 96, "holo": 16}"#;
    let count = tcgdex_sdk::SetCardCount::from_json(&parsed(body.as_bytes())).unwrap();
    assert_eq!(count.total, 102);
    assert_eq!(count.normal, Some(96));
    assert_eq!(count.reverse, None);
    assert_eq!(count.holo, Some(16));
    assert_eq!(count.first_ed, None);

    let out_of_range = r#"{"total": 70000, "official": 102}"#;
    assert_eq!(
        tcgdex_sdk::SetCardCount::from_json(&parsed(out_of_range.as_bytes())),
        Err(DecodeError::OutOfRange)
    );
}

#[test]
fn hp_signed_edges() {
    // A parseable negative text is taken, down to the signed 32-bit minimum.
    let negative = Card::from_json(&parsed(&card_body("\"-30\""))).unwrap();
    assert_eq!(negative.hp, Some(-30));
    let minimum = Card::from_json(&parsed(&card_body("\"-2147483648\""))).unwrap();
    assert_eq!(minimum.hp, Some(-2147483648));
    // One past it fails to parse, so leniency leaves HP absent.
    let below = Card::from_json(&parsed(&card_body("\"-2147483649\""))).unwrap();
    assert_eq!(below.hp, None);
    // The same number as a numeric value is a hard range error.
    assert_eq!(
        Card::from_json(&parsed(&card_body("-2147483649"))),
        Err(DecodeError::OutOfRange)
    );
    // A missing HP field is simply absent.
    let body = r#"{"category":"Trainer","id":"base1-91","localId":"91","name":"Bill","rarity":"Common","variants":{"normal":true,"reverse":false,"holo":false,"firstEdition":false,"wPromo":false},"set":{"id":"base1","name":"Base Set","cardCount":{"total":102,"official":102}},"legal":{"standard":false,"expanded":false}}"#;
    let trainer = Card::from_json(&parsed(body.as_bytes())).unwrap();
    assert_eq!(trainer.hp, None);
    assert_eq!(trainer.category, "Trainer");
}

#[test]
fn int_list_accepts_explicit_plus_sign_text() {
    // The decimal grammar is the standard library's: an optional `+` then
    // digits.
    let list = IntList::from_json(&parsed(b"\"+5\"")).unwrap();
    assert_eq!(list.inner(), &vec![5]);
    assert_eq!(
        IntList::from_json(&parsed(b"\"5 \"")),
        Err(DecodeError::Mismatch)
    );
    assert_eq!(
        IntList::from_json(&parsed(b"\"\"")),
        Err(DecodeError::Mismatch)
    );
}
