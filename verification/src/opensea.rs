//! The OpenSea normalizer: one item per asset, whatever the asset holds.

use vstd::prelude::*;

use crate::model::{outcome_view, Failure, Item, ItemPage, ItemPageView, ItemView, Marketplace};
use crate::parser::{parse_document, parse_outcome};
use crate::value::{Json, JsonView};

verus! {

/// The offset that every OpenSea page names as its next.
pub const OPENSEA_NEXT_OFFSET: i32 = 20;

/// The item that an OpenSea asset is mapped to. Each field is the string
/// under the asset's key of that meaning, or empty where the key is absent or
/// holds no string.
pub open spec fn opensea_item(asset: JsonView) -> ItemView {
    ItemView {
        id: asset.field("id"@).text(),
        token_id: asset.field("token_id"@).text(),
        marketplace: Marketplace::OpenSea,
        blockchain: "ETHEREUM"@,
        name: asset.field("name"@).text(),
        description: asset.field("description"@).text(),
        detail_url: asset.field("permalink"@).text(),
        image_url: asset.field("image_url"@).text(),
    }
}

/// The page that an OpenSea document is mapped to: one item for each element
/// of its `assets`, in order.
pub open spec fn opensea_page(document: JsonView) -> ItemPageView {
    ItemPageView {
        marketplace: Marketplace::OpenSea,
        opensea_next_offset: OPENSEA_NEXT_OFFSET as int,
        rarible_continuation: Seq::empty(),
        items: document.field("assets"@).members().map_values(|asset: JsonView| opensea_item(asset)),
    }
}

/// What parsing an OpenSea document's text gives: its page; or
/// [`Failure::DigitRun`] where the text holds a run of more than
/// `DIGIT_RUN_LIMIT` digits; or [`Failure::Parse`] where a text within that
/// limit is not valid JSON.
pub open spec fn opensea_parse_result(text: Seq<char>) -> Result<ItemPageView, Failure> {
    match parse_outcome(text) {
        Ok(document) => Ok(opensea_page(document)),
        Err(failure) => Err(failure),
    }
}

/// An OpenSea page holds one item for each element of the document's
/// `assets`, in the same order; each is an OpenSea item on `ETHEREUM`,
/// whatever the asset holds. The page's Rarible cursor is empty, and the page
/// is well formed.
pub proof fn law_opensea_one_item_per_asset(document: JsonView)
    ensures
        opensea_page(document).items.len() == document.field("assets"@).members().len(),
        forall|i: int|
            #![trigger opensea_page(document).items[i]]
            0 <= i < opensea_page(document).items.len() ==> {
                &&& opensea_page(document).items[i] == opensea_item(
                    document.field("assets"@).members()[i],
                )
                &&& opensea_page(document).items[i].marketplace == Marketplace::OpenSea
                &&& opensea_page(document).items[i].blockchain == "ETHEREUM"@
            },
        opensea_page(document).rarible_continuation == Seq::<char>::empty(),
        opensea_page(document).wf(),
{
}

/// Maps one OpenSea asset to an item. Never fails: a missing field is empty.
pub fn item_from_opensea_asset(asset: &Json) -> (item: Item)
    ensures
        item@ == opensea_item(asset@),
{
    Item {
        id: asset.field("id").text().to_owned(),
        token_id: asset.field("token_id").text().to_owned(),
        marketplace: Marketplace::OpenSea,
        blockchain: "ETHEREUM".to_owned(),
        name: asset.field("name").text().to_owned(),
        description: asset.field("description").text().to_owned(),
        detail_url: asset.field("permalink").text().to_owned(),
        image_url: asset.field("image_url").text().to_owned(),
    }
}

/// Builds the page of a parsed OpenSea document.
pub fn opensea_page_of(document: &Json) -> (page: ItemPage)
    ensures
        page@ == opensea_page(document@),
        page@.wf(),
{
    proof {
        law_opensea_one_item_per_asset(document@);
    }
    let assets = document.field("assets").members();
    let mut items: Vec<Item> = Vec::new();
    let mut i: usize = 0;
    while i < assets.len()
        invariant
            i <= assets@.len(),
            items@.len() == i,
            forall|j: int| 0 <= j < i ==> (#[trigger] items@[j])@ == opensea_item(assets@[j]@),
        decreases assets@.len() - i,
    {
        items.push(item_from_opensea_asset(&assets[i]));
        i += 1;
    }
    let page = ItemPage {
        marketplace: Marketplace::OpenSea,
        opensea_next_offset: OPENSEA_NEXT_OFFSET,
        rarible_continuation: String::new(),
        items,
    };
    assert(page@.items =~= opensea_page(document@).items);
    page
}

/// Parses the text of an OpenSea document and builds its page.
///
/// Fails with [`Failure::DigitRun`] where the text holds a run of digits
/// beyond the parser's limit, and with [`Failure::Parse`] exactly where a
/// text within the limit is not valid JSON.
pub fn parse_opensea_page(json_string: &str) -> (page: Result<ItemPage, Failure>)
    ensures
        outcome_view(page) == opensea_parse_result(json_string@),
        page matches Ok(page) ==> page@.wf(),
{
    match parse_document(json_string) {
        Ok(document) => Ok(opensea_page_of(&document)),
        Err(failure) => Err(failure),
    }
}

} // verus!
