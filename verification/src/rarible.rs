//! The Rarible normalizer: an item for each element that has a usable image.

use vstd::prelude::*;
use vstd::string::*;

use crate::model::{outcome_view, Failure, Item, ItemPage, ItemPageView, ItemView, Marketplace};
use crate::parser::{parse_document, parse_outcome};
use crate::text::same_text;
use crate::value::{Json, JsonView};

verus! {

/// The `opensea_next_offset` of every Rarible page: no offset applies.
pub const NO_OFFSET: i32 = -1;

/// The URL under which Rarible serves an item's details, without the item's
/// id.
pub open spec fn detail_url_base() -> Seq<char> {
    "https://api.rarible.org/v0.1/items/"@
}

/// Whether a content entry is the original image: its `@type` is `IMAGE` and
/// its `representation` is `ORIGINAL`.
pub open spec fn is_original_image(entry: JsonView) -> bool {
    &&& entry.field("@type"@).text() == "IMAGE"@
    &&& entry.field("representation"@).text() == "ORIGINAL"@
}

/// The image URL chosen from an element's content entries: the `url` of the
/// last entry that is an original image, empty where that entry has no `url`
/// string or where no entry is an original image.
pub open spec fn selected_image(contents: Seq<JsonView>) -> Seq<char>
    decreases contents.len(),
{
    if contents.len() == 0 {
        Seq::empty()
    } else if is_original_image(contents.last()) {
        contents.last().field("url"@).text()
    } else {
        selected_image(contents.drop_last())
    }
}

/// The content entries of a Rarible element: the elements of `meta.content`.
pub open spec fn contents_of(element: JsonView) -> Seq<JsonView> {
    element.field("meta"@).field("content"@).members()
}

/// The item that a Rarible element is mapped to, or `None` where no image
/// URL is chosen for it.
pub open spec fn rarible_item(element: JsonView) -> Option<ItemView> {
    let image_url = selected_image(contents_of(element));
    if image_url.len() == 0 {
        None
    } else {
        Some(
            ItemView {
                id: element.field("id"@).text(),
                token_id: element.field("tokenId"@).text(),
                marketplace: Marketplace::Rarible,
                blockchain: element.field("blockchain"@).text(),
                name: element.field("meta"@).field("name"@).text(),
                description: element.field("meta"@).field("description"@).text(),
                detail_url: detail_url_base() + element.field("id"@).text(),
                image_url,
            },
        )
    }
}

/// The items of a sequence of Rarible elements: the item of each element
/// that has one, in the order of the elements.
pub open spec fn rarible_items(elements: Seq<JsonView>) -> Seq<ItemView>
    decreases elements.len(),
{
    if elements.len() == 0 {
        Seq::empty()
    } else {
        let before = rarible_items(elements.drop_last());
        match rarible_item(elements.last()) {
            Some(item) => before.push(item),
            None => before,
        }
    }
}

/// The page that a Rarible document is mapped to.
pub open spec fn rarible_page(document: JsonView) -> ItemPageView {
    ItemPageView {
        marketplace: Marketplace::Rarible,
        opensea_next_offset: NO_OFFSET as int,
        rarible_continuation: document.field("continuation"@).text(),
        items: rarible_items(document.field("items"@).members()),
    }
}

/// What parsing a Rarible document's text gives: its page; or
/// [`Failure::DigitRun`] where the text holds a run of more than
/// `DIGIT_RUN_LIMIT` digits; or [`Failure::Parse`] where a text within that
/// limit is not valid JSON.
pub open spec fn rarible_parse_result(text: Seq<char>) -> Result<ItemPageView, Failure> {
    match parse_outcome(text) {
        Ok(document) => Ok(rarible_page(document)),
        Err(failure) => Err(failure),
    }
}

/// Whether some content entry of an element is an original image.
pub open spec fn has_original_image(element: JsonView) -> bool {
    exists|i: int|
        0 <= i < contents_of(element).len() && is_original_image(#[trigger] contents_of(element)[i])
}

/// Last match wins: where entry `k` is an original image and no entry after
/// it is one, the image URL chosen is that of entry `k`, whatever the entries
/// before it hold.
pub proof fn law_last_original_image_wins(contents: Seq<JsonView>, k: int)
    requires
        0 <= k < contents.len(),
        is_original_image(contents[k]),
        forall|j: int| k < j < contents.len() ==> !is_original_image(#[trigger] contents[j]),
    ensures
        selected_image(contents) == contents[k].field("url"@).text(),
    decreases contents.len(),
{
    if k < contents.len() - 1 {
        law_last_original_image_wins(contents.drop_last(), k);
    }
}

/// The image of an item is that of the element's last original image: where
/// content entry `k` is an original image and no entry after it is one, the
/// element gives an item exactly if entry `k` has a `url` string that is not
/// empty, and that string is the item's image URL.
pub proof fn law_item_image_is_the_last_original(element: JsonView, k: int)
    requires
        0 <= k < contents_of(element).len(),
        is_original_image(contents_of(element)[k]),
        forall|j: int|
            k < j < contents_of(element).len() ==> !is_original_image(
                #[trigger] contents_of(element)[j],
            ),
    ensures
        rarible_item(element) is Some <==> contents_of(element)[k].field("url"@).text().len() > 0,
        rarible_item(element) matches Some(item) ==> item.image_url == contents_of(
            element,
        )[k].field("url"@).text(),
{
    law_last_original_image_wins(contents_of(element), k);
}

/// Where no content entry is an original image, no image URL is chosen.
pub proof fn law_no_original_image_no_url(contents: Seq<JsonView>)
    requires
        forall|i: int| 0 <= i < contents.len() ==> !is_original_image(#[trigger] contents[i]),
    ensures
        selected_image(contents).len() == 0,
    decreases contents.len(),
{
    if contents.len() > 0 {
        law_no_original_image_no_url(contents.drop_last());
    }
}

/// An element without an original image among its content entries gives no
/// item.
pub proof fn law_no_original_image_no_item(element: JsonView)
    requires
        !has_original_image(element),
    ensures
        rarible_item(element) is None,
{
    law_no_original_image_no_url(contents_of(element));
}

/// Every item of a Rarible element is a Rarible item with an image URL, and
/// its detail URL is the fixed base followed by its id.
pub proof fn law_rarible_item_shape(element: JsonView)
    ensures
        rarible_item(element) matches Some(item) ==> {
            &&& item.marketplace == Marketplace::Rarible
            &&& item.image_url.len() > 0
            &&& item.detail_url == detail_url_base() + item.id
        },
{
}

/// A Rarible page never holds more items than the document's `items` has
/// elements, and all of them are Rarible items.
pub proof fn law_rarible_items_bounded(elements: Seq<JsonView>)
    ensures
        rarible_items(elements).len() <= elements.len(),
        forall|i: int|
            0 <= i < rarible_items(elements).len() ==> (#[trigger] rarible_items(
                elements,
            )[i]).marketplace == Marketplace::Rarible,
    decreases elements.len(),
{
    if elements.len() > 0 {
        law_rarible_items_bounded(elements.drop_last());
    }
}

/// The number of items of a Rarible page is the number of elements that have
/// an original image, provided that the image chosen for each of those
/// elements is not empty. (The last original image of an element may lack a
/// `url` string; such an element has an original image and still gives no
/// item.)
pub proof fn law_rarible_item_count(elements: Seq<JsonView>)
    requires
        forall|i: int|
            0 <= i < elements.len() && has_original_image(#[trigger] elements[i])
                ==> selected_image(contents_of(elements[i])).len() > 0,
    ensures
        rarible_items(elements).len() == elements.filter(
            |element: JsonView| has_original_image(element),
        ).len(),
    decreases elements.len(),
{
    reveal(Seq::filter);
    if elements.len() > 0 {
        let last = elements.last();
        assert(last == elements[elements.len() - 1]);
        assert forall|i: int|
            0 <= i < elements.drop_last().len() && has_original_image(
                #[trigger] elements.drop_last()[i],
            ) implies selected_image(contents_of(elements.drop_last()[i])).len() > 0 by {
            assert(elements.drop_last()[i] == elements[i]);
        }
        law_rarible_item_count(elements.drop_last());
        if !has_original_image(last) {
            law_no_original_image_no_item(last);
        }
    }
}

/// A Rarible page carries the sentinel `-1` as its OpenSea offset, holds at
/// most one item for each element of the document's `items`, and is well
/// formed.
pub proof fn law_rarible_page(document: JsonView)
    ensures
        rarible_page(document).opensea_next_offset == -1,
        rarible_page(document).items.len() <= document.field("items"@).members().len(),
        rarible_page(document).wf(),
{
    law_rarible_items_bounded(document.field("items"@).members());
}

/// Chooses the image URL among an element's content entries: a later
/// original image replaces an earlier one.
fn select_image(contents: &[Json]) -> (image_url: String)
    ensures
        image_url@ == selected_image(contents@.map_values(|entry: Json| entry@)),
{
    let ghost views = contents@.map_values(|entry: Json| entry@);
    let mut image_url = String::new();
    let mut i: usize = 0;
    assert(views.take(0).len() == 0);
    while i < contents.len()
        invariant
            i <= contents@.len(),
            views == contents@.map_values(|entry: Json| entry@),
            image_url@ == selected_image(views.take(i as int)),
        decreases contents@.len() - i,
    {
        let entry = &contents[i];
        proof {
            assert(views.take(i + 1).drop_last() == views.take(i as int));
            assert(views.take(i + 1).last() == entry@);
        }
        if same_text(entry.field("@type").text(), "IMAGE") && same_text(
            entry.field("representation").text(),
            "ORIGINAL",
        ) {
            image_url = entry.field("url").text().to_owned();
        }
        i += 1;
    }
    assert(views.take(i as int) == views);
    image_url
}

/// Maps one Rarible element to an item, or to nothing where the element has
/// no usable image.
pub fn item_from_rarible_element(element: &Json) -> (item: Option<Item>)
    ensures
        match item {
            Some(item) => rarible_item(element@) == Some(item@),
            None => rarible_item(element@) is None,
        },
{
    let id = element.field("id").text().to_owned();
    let token_id = element.field("tokenId").text().to_owned();
    let blockchain = element.field("blockchain").text().to_owned();
    let meta = element.field("meta");
    let name = meta.field("name").text().to_owned();
    let description = meta.field("description").text().to_owned();
    let detail_url = "https://api.rarible.org/v0.1/items/".to_owned().concat(id.as_str());
    let contents = meta.field("content").members();
    assert(contents@.map_values(|entry: Json| entry@) =~= contents_of(element@));
    let image_url = select_image(contents);
    if image_url.as_str().is_empty() {
        None
    } else {
        Some(
            Item {
                id,
                token_id,
                marketplace: Marketplace::Rarible,
                blockchain,
                name,
                description,
                detail_url,
                image_url,
            },
        )
    }
}

/// Builds the page of a parsed Rarible document.
pub fn rarible_page_of(document: &Json) -> (page: ItemPage)
    ensures
        page@ == rarible_page(document@),
        page@.wf(),
{
    proof {
        law_rarible_page(document@);
    }
    let elements = document.field("items").members();
    let ghost views = document@.field("items"@).members();
    let mut items: Vec<Item> = Vec::new();
    let mut i: usize = 0;
    assert(views.take(0).len() == 0);
    while i < elements.len()
        invariant
            i <= elements@.len(),
            views.len() == elements@.len(),
            forall|j: int| 0 <= j < elements@.len() ==> (#[trigger] elements@[j])@ == views[j],
            crate::model::item_views(items@) == rarible_items(views.take(i as int)),
        decreases elements@.len() - i,
    {
        proof {
            assert(views.take(i + 1).drop_last() == views.take(i as int));
            assert(views.take(i + 1).last() == elements@[i as int]@);
        }
        let ghost before = items@;
        match item_from_rarible_element(&elements[i]) {
            Some(item) => {
                items.push(item);
                assert(crate::model::item_views(items@) =~= crate::model::item_views(before).push(item@));
            },
            None => {},
        }
        i += 1;
    }
    assert(views.take(i as int) == views);
    ItemPage {
        marketplace: Marketplace::Rarible,
        opensea_next_offset: NO_OFFSET,
        rarible_continuation: document.field("continuation").text().to_owned(),
        items,
    }
}

/// Parses the text of a Rarible document and builds its page.
///
/// Fails with [`Failure::DigitRun`] where the text holds a run of digits
/// beyond the parser's limit, and with [`Failure::Parse`] exactly where a
/// text within the limit is not valid JSON.
pub fn parse_rarible_page(json_string: &str) -> (page: Result<ItemPage, Failure>)
    ensures
        outcome_view(page) == rarible_parse_result(json_string@),
        page matches Ok(page) ==> page@.wf(),
{
    match parse_document(json_string) {
        Ok(document) => Ok(rarible_page_of(&document)),
        Err(failure) => Err(failure),
    }
}

} // verus!
