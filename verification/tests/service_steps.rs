use nft_service::model::{collect_these, Failure, ItemPage, Marketplace, Pagination};
use nft_service::service::{
    get_first_opensea_page, get_first_rarible_page, get_opensea_continuation,
    get_opensea_items_json, get_rarible_continuation, get_rarible_continuation_json,
    get_rarible_items_json, Source,
};

const OPENSEA_DOCUMENT: &str = "{\"assets\":[\n{\"id\":\"1\",\"name\":\"one\",\"description\":\"first\nline\",\"permalink\":\"p1\",\"image_url\":\"i1\"},\n{\"id\":\"2\"}\n]}\n";

const RARIBLE_DOCUMENT: &str = "{\"items\":[{\"id\":\"X\",\"meta\":{\"content\":[{\"@type\":\"IMAGE\",\"representation\":\"ORIGINAL\",\"url\":\"http://a\"}]}},{\"id\":\"Y\"}],\"continuation\":\"c2\"}";

#[test]
fn opensea_document_is_the_bundled_one() {
    assert_eq!(get_opensea_items_json(), Source::Bundled);
}

#[test]
fn rarible_first_page_is_fetched_from_its_url() {
    assert_eq!(
        get_rarible_items_json(),
        Source::Remote("https://api.rarible.org/v0.1/items/all?size=20".to_string())
    );
}

#[test]
fn rarible_continuation_is_fetched_from_the_url_with_the_cursor() {
    assert_eq!(
        get_rarible_continuation_json("ETHEREUM:1643760949000_0x96:2040"),
        Source::Remote(
            "https://api.rarible.org/v0.1/items/all?size=20&continuation=ETHEREUM:1643760949000_0x96:2040"
                .to_string()
        )
    );
    assert_eq!(
        get_rarible_continuation_json(""),
        Source::Remote("https://api.rarible.org/v0.1/items/all?size=20&continuation=".to_string())
    );
}

#[test]
fn first_opensea_page_reads_a_document_with_raw_newlines() {
    let page = get_first_opensea_page(Some(OPENSEA_DOCUMENT)).unwrap();
    assert_eq!(page.marketplace, Marketplace::OpenSea);
    assert_eq!(page.items.len(), 2);
    assert_eq!(page.items[0].id, "1");
    assert_eq!(page.items[0].description, "first line");
    assert_eq!(page.items[1].id, "2");
    assert_eq!(page.opensea_next_offset, 20);
    assert_eq!(page.rarible_continuation, "");
}

#[test]
fn first_opensea_page_replaces_no_more_newlines_than_its_limit() {
    let padding = "\n".repeat(100000);
    let within = format!("{}{{\"assets\":[{{\"name\":\"a b\"}}]}}", padding);
    assert_eq!(get_first_opensea_page(Some(&within)).unwrap().items[0].name, "a b");
    let at_limit = format!("{}{{\"assets\":[{{\"name\":\"a\\nb\"}}]}}\n", &padding[1..]);
    assert_eq!(get_first_opensea_page(Some(&at_limit)).unwrap().items[0].name, "a\nb");
    let beyond = format!("{}{{\"assets\":[{{\"name\":\"a\nb\"}}]}}", padding);
    assert_eq!(get_first_opensea_page(Some(&beyond)), Err(Failure::Parse));
}

#[test]
fn first_opensea_page_is_the_same_on_every_call() {
    let first = get_first_opensea_page(Some(OPENSEA_DOCUMENT));
    let second = get_first_opensea_page(Some(OPENSEA_DOCUMENT));
    assert!(first.is_ok());
    assert_eq!(first, second);
}

#[test]
fn opensea_continuation_is_the_first_page_for_every_offset() {
    let first = get_first_opensea_page(Some(OPENSEA_DOCUMENT));
    assert!(first.is_ok());
    for offset in [0, 20, 40, -1, i32::MAX, i32::MIN] {
        assert_eq!(get_opensea_continuation(Some(OPENSEA_DOCUMENT), offset), first);
    }
}

#[test]
fn opensea_continuation_fails_as_the_first_page_does() {
    assert_eq!(get_opensea_continuation(Some("{"), 20), Err(Failure::Parse));
    assert_eq!(get_opensea_continuation(None, 20), Err(Failure::Transport));
}

#[test]
fn first_rarible_page_reads_the_document_as_it_is() {
    let page = get_first_rarible_page(Some(RARIBLE_DOCUMENT)).unwrap();
    assert_eq!(page.marketplace, Marketplace::Rarible);
    assert_eq!(page.items.len(), 1);
    assert_eq!(page.items[0].id, "X");
    assert_eq!(page.items[0].image_url, "http://a");
    assert_eq!(page.opensea_next_offset, -1);
    assert_eq!(page.rarible_continuation, "c2");
}

#[test]
fn rarible_pages_do_not_replace_newlines() {
    let document = "{\"items\":[],\"continuation\":\"two\nlines\"}";
    assert_eq!(get_first_rarible_page(Some(document)), Err(Failure::Parse));
    assert_eq!(get_rarible_continuation(Some(document)), Err(Failure::Parse));
    assert!(get_first_opensea_page(Some(document)).is_ok());
}

#[test]
fn rarible_continuation_reads_a_page_like_the_first() {
    assert_eq!(
        get_rarible_continuation(Some(RARIBLE_DOCUMENT)),
        get_first_rarible_page(Some(RARIBLE_DOCUMENT))
    );
    assert_eq!(get_rarible_continuation(Some(RARIBLE_DOCUMENT)).unwrap().rarible_continuation, "c2");
}

#[test]
fn document_that_was_not_retrieved_is_a_transport_failure() {
    assert_eq!(get_first_opensea_page(None), Err(Failure::Transport));
    assert_eq!(get_opensea_continuation(None, 0), Err(Failure::Transport));
    assert_eq!(get_first_rarible_page(None), Err(Failure::Transport));
    assert_eq!(get_rarible_continuation(None), Err(Failure::Transport));
}

#[test]
fn document_that_is_no_json_is_a_parse_failure() {
    assert_eq!(get_first_opensea_page(Some("error code: 1020")), Err(Failure::Parse));
    assert_eq!(get_first_rarible_page(Some("")), Err(Failure::Parse));
    assert_eq!(get_rarible_continuation(Some("{\"items\":[}")), Err(Failure::Parse));
}

#[test]
fn pagination_field_of_the_other_marketplace_holds_its_sentinel() {
    let opensea = get_first_opensea_page(Some("{\"assets\":[],\"continuation\":\"c\"}")).unwrap();
    assert_eq!(opensea.rarible_continuation, "");
    let rarible = get_first_rarible_page(Some("{\"items\":[],\"opensea_next_offset\":20}")).unwrap();
    assert_eq!(rarible.opensea_next_offset, -1);
    let later = get_rarible_continuation(Some("{\"continuation\":\"c3\"}")).unwrap();
    assert_eq!(later.opensea_next_offset, -1);
    assert_eq!(later.rarible_continuation, "c3");
}

#[test]
fn collect_these_pairs_the_pages_unchanged() {
    let opensea = get_first_opensea_page(Some(OPENSEA_DOCUMENT)).unwrap();
    let rarible = get_first_rarible_page(Some(RARIBLE_DOCUMENT)).unwrap();
    let pages = collect_these(opensea.clone(), rarible.clone());
    assert_eq!(pages.opensea_page, opensea);
    assert_eq!(pages.rarible_page, rarible);
}

#[test]
fn collect_these_does_not_validate_its_pages() {
    let empty = ItemPage {
        marketplace: Marketplace::Rarible,
        opensea_next_offset: 7,
        rarible_continuation: "x".to_string(),
        items: Vec::new(),
    };
    let pages = collect_these(empty.clone(), empty.clone());
    assert_eq!(pages.opensea_page, empty);
    assert_eq!(pages.rarible_page, empty);
}

#[test]
fn pagination_is_the_live_field_of_the_marketplace() {
    let opensea = get_first_opensea_page(Some(OPENSEA_DOCUMENT)).unwrap();
    assert_eq!(opensea.pagination(), Pagination::Offset(20));
    let rarible = get_first_rarible_page(Some(RARIBLE_DOCUMENT)).unwrap();
    assert_eq!(rarible.pagination(), Pagination::Cursor("c2".to_string()));
    let last = get_first_rarible_page(Some("{\"items\":[]}")).unwrap();
    assert_eq!(last.pagination(), Pagination::Cursor(String::new()));
}

#[test]
fn document_with_a_run_of_digits_beyond_the_limit_is_refused() {
    let opensea = format!("{{\"assets\":[{{\"id\":\"1\",\"rank\":0.{}}}]}}", "0".repeat(32769));
    assert_eq!(get_first_opensea_page(Some(&opensea)), Err(Failure::DigitRun));
    assert_eq!(get_opensea_continuation(Some(&opensea), 20), Err(Failure::DigitRun));
    let rarible = format!("{{\"items\":[],\"continuation\":\"{}\"}}", "8".repeat(40000));
    assert_eq!(get_first_rarible_page(Some(&rarible)), Err(Failure::DigitRun));
    assert_eq!(get_rarible_continuation(Some(&rarible)), Err(Failure::DigitRun));
}

#[test]
fn document_with_a_run_of_digits_at_the_limit_is_read() {
    let opensea = format!("{{\"assets\":[{{\"id\":\"1\",\"rank\":0.{}}}]}}", "0".repeat(32768));
    let page = get_first_opensea_page(Some(&opensea)).unwrap();
    assert_eq!(page.items.len(), 1);
    assert_eq!(page.items[0].id, "1");
    let rarible = format!("{{\"items\":[],\"continuation\":\"{}\"}}", "8".repeat(32768));
    let page = get_first_rarible_page(Some(&rarible)).unwrap();
    assert_eq!(page.rarible_continuation, "8".repeat(32768));
}
