use nft_service::model::{Failure, Item, Marketplace};
use nft_service::opensea::{item_from_opensea_asset, opensea_page_of, parse_opensea_page};
use nft_service::value::Json;

fn text(value: &str) -> Json {
    Json::Text(value.to_string())
}

fn object(members: Vec<(&str, Json)>) -> Json {
    Json::Object(members.into_iter().map(|(key, value)| (key.to_string(), value)).collect())
}

fn full_asset() -> Json {
    object(vec![
        ("id", text("42")),
        ("token_id", text("1001")),
        ("name", text("Cat")),
        ("description", text("A cat")),
        ("permalink", text("https://opensea.io/assets/42")),
        ("image_url", text("https://img/42.png")),
    ])
}

#[test]
fn opensea_asset_maps_each_field() {
    let item = item_from_opensea_asset(&full_asset());
    let expected = Item {
        id: "42".to_string(),
        token_id: "1001".to_string(),
        marketplace: Marketplace::OpenSea,
        blockchain: "ETHEREUM".to_string(),
        name: "Cat".to_string(),
        description: "A cat".to_string(),
        detail_url: "https://opensea.io/assets/42".to_string(),
        image_url: "https://img/42.png".to_string(),
    };
    assert_eq!(item, expected);
}

#[test]
fn opensea_asset_without_fields_gives_an_empty_item() {
    let expected = Item {
        id: String::new(),
        token_id: String::new(),
        marketplace: Marketplace::OpenSea,
        blockchain: "ETHEREUM".to_string(),
        name: String::new(),
        description: String::new(),
        detail_url: String::new(),
        image_url: String::new(),
    };
    assert_eq!(item_from_opensea_asset(&object(vec![])), expected);
    assert_eq!(item_from_opensea_asset(&Json::Null), expected);
    assert_eq!(item_from_opensea_asset(&text("asset")), expected);
    assert_eq!(item_from_opensea_asset(&Json::Array(vec![full_asset()])), expected);
}

#[test]
fn opensea_field_that_is_no_string_is_empty() {
    let asset = object(vec![
        ("id", Json::Number { positive: true, mantissa: 42, exponent: 0 }),
        ("token_id", Json::Null),
        ("name", Json::Bool(true)),
        ("description", Json::Array(vec![text("A cat")])),
        ("permalink", object(vec![("url", text("u"))])),
        ("image_url", text("https://img/42.png")),
    ]);
    let item = item_from_opensea_asset(&asset);
    assert_eq!(item.id, "");
    assert_eq!(item.token_id, "");
    assert_eq!(item.name, "");
    assert_eq!(item.description, "");
    assert_eq!(item.detail_url, "");
    assert_eq!(item.image_url, "https://img/42.png");
}

#[test]
fn opensea_item_is_opensea_on_ethereum_whatever_the_asset_says() {
    let asset = object(vec![("marketplace", text("Rarible")), ("blockchain", text("TEZOS"))]);
    let item = item_from_opensea_asset(&asset);
    assert_eq!(item.marketplace, Marketplace::OpenSea);
    assert_eq!(item.blockchain, "ETHEREUM");
}

#[test]
fn opensea_page_has_one_item_per_asset_in_order() {
    let document = object(vec![(
        "assets",
        Json::Array(vec![
            object(vec![("id", text("1"))]),
            Json::Null,
            object(vec![]),
            object(vec![("id", text("4")), ("image_url", text(""))]),
            text("not an asset"),
        ]),
    )]);
    let page = opensea_page_of(&document);
    assert_eq!(page.items.len(), 5);
    let ids: Vec<&str> = page.items.iter().map(|item| item.id.as_str()).collect();
    assert_eq!(ids, vec!["1", "", "", "4", ""]);
    for item in &page.items {
        assert_eq!(item.marketplace, Marketplace::OpenSea);
        assert_eq!(item.blockchain, "ETHEREUM");
    }
}

#[test]
fn opensea_page_carries_its_pagination_data() {
    let page = opensea_page_of(&object(vec![("assets", Json::Array(vec![full_asset()]))]));
    assert_eq!(page.marketplace, Marketplace::OpenSea);
    assert_eq!(page.opensea_next_offset, 20);
    assert_eq!(page.rarible_continuation, "");
}

#[test]
fn opensea_page_ignores_a_continuation_in_the_document() {
    let document = object(vec![("assets", Json::Array(vec![])), ("continuation", text("cursor"))]);
    assert_eq!(opensea_page_of(&document).rarible_continuation, "");
}

#[test]
fn opensea_document_without_an_assets_array_gives_an_empty_page() {
    assert_eq!(opensea_page_of(&object(vec![])).items.len(), 0);
    assert_eq!(opensea_page_of(&object(vec![("assets", text("none"))])).items.len(), 0);
    assert_eq!(opensea_page_of(&object(vec![("assets", full_asset())])).items.len(), 0);
    assert_eq!(opensea_page_of(&Json::Array(vec![full_asset()])).items.len(), 0);
    assert_eq!(opensea_page_of(&Json::Null).opensea_next_offset, 20);
}

#[test]
fn opensea_page_is_parsed_from_text() {
    let page = parse_opensea_page(
        "{\"assets\":[{\"id\":\"1\",\"token_id\":\"t\",\"name\":\"n\",\"description\":\"d\",\"permalink\":\"p\",\"image_url\":\"i\"},{\"id\":2}]}",
    )
    .unwrap();
    assert_eq!(page.items.len(), 2);
    assert_eq!(page.items[0].id, "1");
    assert_eq!(page.items[0].token_id, "t");
    assert_eq!(page.items[0].name, "n");
    assert_eq!(page.items[0].description, "d");
    assert_eq!(page.items[0].detail_url, "p");
    assert_eq!(page.items[0].image_url, "i");
    assert_eq!(page.items[1].id, "");
    assert_eq!(page.opensea_next_offset, 20);
    assert_eq!(page.rarible_continuation, "");
}

#[test]
fn opensea_text_that_is_no_json_is_a_parse_failure() {
    assert_eq!(parse_opensea_page("{\"assets\":["), Err(Failure::Parse));
    assert_eq!(parse_opensea_page(""), Err(Failure::Parse));
    assert_eq!(parse_opensea_page("<html>error code: 1020</html>"), Err(Failure::Parse));
}

#[test]
fn opensea_text_with_a_raw_newline_in_a_string_is_a_parse_failure() {
    assert_eq!(parse_opensea_page("{\"assets\":[{\"name\":\"two\nlines\"}]}"), Err(Failure::Parse));
}

#[test]
fn marketplace_names_are_opensea_and_rarible() {
    assert_eq!(Marketplace::OpenSea.name(), "OpenSea");
    assert_eq!(Marketplace::Rarible.name(), "Rarible");
}

#[test]
fn opensea_text_with_a_run_of_digits_beyond_the_limit_is_refused() {
    let text = format!("{{\"assets\":[{{\"id\":\"{}\"}}]}}", "5".repeat(32769));
    assert_eq!(parse_opensea_page(&text), Err(Failure::DigitRun));
}
