//! The operations of the service, one step each.
//!
//! An operation runs in two steps around the host's I/O. First the library
//! names the [`Source`] of the raw document. The host obtains the text, or
//! fails to. Then the library turns what the host obtained into a page.

use vstd::prelude::*;
use vstd::string::*;

use crate::model::{outcome_view, Failure, ItemPage, ItemPageView, Marketplace};
use crate::opensea::{law_opensea_one_item_per_asset, opensea_parse_result, parse_opensea_page};
use crate::parser::parse_outcome;
use crate::rarible::{law_rarible_page, parse_rarible_page, rarible_parse_result};
use crate::text::{newlines_to_spaces, replace_newlines};

verus! {

/// Where the raw document of an operation comes from.
#[derive(Clone, Debug, PartialEq, Eq)]
pub enum Source {
    /// The OpenSea listing that is bundled with the service.
    Bundled,
    /// The body of the response to an HTTP GET of this URL.
    Remote(String),
}

/// What a [`Source`] holds, as mathematical values.
pub enum SourceView {
    Bundled,
    Remote(Seq<char>),
}

impl View for Source {
    type V = SourceView;

    open spec fn view(&self) -> SourceView {
        match self {
            Source::Bundled => SourceView::Bundled,
            Source::Remote(url) => SourceView::Remote(url@),
        }
    }
}

/// At most this many newline characters of an OpenSea document are replaced
/// by spaces before it is parsed.
pub const NEWLINE_LIMIT: usize = 100000;

/// The URL of the first page of Rarible's items.
pub open spec fn rarible_items_url() -> Seq<char> {
    "https://api.rarible.org/v0.1/items/all?size=20"@
}

/// The URL of the page of Rarible's items that follows `continuation`.
pub open spec fn rarible_continuation_url(continuation: Seq<char>) -> Seq<char> {
    "https://api.rarible.org/v0.1/items/all?size=20&continuation="@ + continuation
}

/// What the host obtained, as characters: `None` where it could not
/// retrieve the document.
pub open spec fn fetched_view(fetched: Option<&str>) -> Option<Seq<char>> {
    match fetched {
        Some(text) => Some(text@),
        None => None,
    }
}

/// The outcome of an OpenSea page operation on what the host obtained: a
/// transport failure where it obtained nothing; else what parsing gives on
/// the text in which at most [`NEWLINE_LIMIT`] newline characters were
/// replaced by spaces: the page, or the failure that parsing ends in.
pub open spec fn opensea_outcome(fetched: Option<Seq<char>>) -> Result<ItemPageView, Failure> {
    match fetched {
        Some(text) => opensea_parse_result(newlines_to_spaces(text, NEWLINE_LIMIT as nat)),
        None => Err(Failure::Transport),
    }
}

/// The outcome of the OpenSea continuation on what the host obtained: that
/// of the first page, whatever the offset.
pub open spec fn opensea_continuation_outcome(
    fetched: Option<Seq<char>>,
    opensea_next_offset: i32,
) -> Result<ItemPageView, Failure> {
    opensea_outcome(fetched)
}

/// The outcome of a Rarible page operation on what the host obtained: a
/// transport failure where it obtained nothing; else what parsing gives on
/// the text as it is: the page, or the failure that parsing ends in.
pub open spec fn rarible_outcome(fetched: Option<Seq<char>>) -> Result<ItemPageView, Failure> {
    match fetched {
        Some(text) => rarible_parse_result(text),
        None => Err(Failure::Transport),
    }
}

/// Every page that an operation gives is of the operation's marketplace, is
/// well formed, and carries the sentinel in the pagination field of the
/// other marketplace: an empty cursor on an OpenSea page, the offset `-1` on
/// a Rarible page.
pub proof fn law_pagination_sentinels(fetched: Option<Seq<char>>)
    ensures
        opensea_outcome(fetched) matches Ok(page) ==> {
            &&& page.marketplace == Marketplace::OpenSea
            &&& page.opensea_next_offset == 20
            &&& page.rarible_continuation == Seq::<char>::empty()
            &&& page.wf()
        },
        rarible_outcome(fetched) matches Ok(page) ==> {
            &&& page.marketplace == Marketplace::Rarible
            &&& page.opensea_next_offset == -1
            &&& page.wf()
        },
{
    if let Some(text) = fetched {
        if let Ok(document) = parse_outcome(newlines_to_spaces(text, NEWLINE_LIMIT as nat)) {
            law_opensea_one_item_per_asset(document);
        }
        if let Ok(document) = parse_outcome(text) {
            law_rarible_page(document);
        }
    }
}

/// The first OpenSea page is a function of the document: two outcomes that
/// `get_first_opensea_page` may give for the same document are equal.
pub proof fn law_first_opensea_page_is_idempotent(
    fetched: Option<Seq<char>>,
    first: Result<ItemPageView, Failure>,
    second: Result<ItemPageView, Failure>,
)
    requires
        first == opensea_outcome(fetched),
        second == opensea_outcome(fetched),
    ensures
        first == second,
{
}

/// The OpenSea continuation is the first page again: for every offset, an
/// outcome that `get_opensea_continuation` may give equals the outcome that
/// `get_first_opensea_page` gives for the same document.
pub proof fn law_opensea_continuation_is_first_page(
    fetched: Option<Seq<char>>,
    opensea_next_offset: i32,
    first: Result<ItemPageView, Failure>,
    continued: Result<ItemPageView, Failure>,
)
    requires
        first == opensea_outcome(fetched),
        continued == opensea_continuation_outcome(fetched, opensea_next_offset),
    ensures
        continued == first,
{
}

/// The source of the OpenSea document: the bundled listing, since the live
/// API throttles every request.
pub fn get_opensea_items_json() -> (source: Source)
    ensures
        source@ == SourceView::Bundled,
{
    Source::Bundled
}

/// The source of the first page of Rarible's items.
pub fn get_rarible_items_json() -> (source: Source)
    ensures
        source@ == SourceView::Remote(rarible_items_url()),
{
    Source::Remote("https://api.rarible.org/v0.1/items/all?size=20".to_owned())
}

/// The source of the page of Rarible's items that follows `continuation`,
/// the cursor that the page before it gave.
pub fn get_rarible_continuation_json(continuation: &str) -> (source: Source)
    ensures
        source@ == SourceView::Remote(rarible_continuation_url(continuation@)),
{
    Source::Remote(
        "https://api.rarible.org/v0.1/items/all?size=20&continuation=".to_owned().concat(
            continuation,
        ),
    )
}

/// The first OpenSea page, from what the host obtained from
/// [`get_opensea_items_json`].
pub fn get_first_opensea_page(fetched: Option<&str>) -> (page: Result<ItemPage, Failure>)
    ensures
        outcome_view(page) == opensea_outcome(fetched_view(fetched)),
        page matches Ok(page) ==> page@.wf(),
{
    match fetched {
        Some(text) => {
            let cleaned = replace_newlines(text, NEWLINE_LIMIT);
            parse_opensea_page(cleaned.as_str())
        },
        None => Err(Failure::Transport),
    }
}

/// The OpenSea page after `opensea_next_offset`.
///
/// OpenSea's API never honored an offset, so this is the first page again:
/// the offset is accepted and ignored.
pub fn get_opensea_continuation(fetched: Option<&str>, opensea_next_offset: i32) -> (page: Result<
    ItemPage,
    Failure,
>)
    ensures
        outcome_view(page) == opensea_continuation_outcome(
            fetched_view(fetched),
            opensea_next_offset,
        ),
        outcome_view(page) == opensea_outcome(fetched_view(fetched)),
        page matches Ok(page) ==> page@.wf(),
{
    get_first_opensea_page(fetched)
}

/// The first Rarible page, from what the host obtained from
/// [`get_rarible_items_json`].
pub fn get_first_rarible_page(fetched: Option<&str>) -> (page: Result<ItemPage, Failure>)
    ensures
        outcome_view(page) == rarible_outcome(fetched_view(fetched)),
        page matches Ok(page) ==> page@.wf(),
{
    match fetched {
        Some(text) => parse_rarible_page(text),
        None => Err(Failure::Transport),
    }
}

/// A later Rarible page, from what the host obtained from
/// [`get_rarible_continuation_json`].
pub fn get_rarible_continuation(fetched: Option<&str>) -> (page: Result<ItemPage, Failure>)
    ensures
        outcome_view(page) == rarible_outcome(fetched_view(fetched)),
        page matches Ok(page) ==> page@.wf(),
{
    get_first_rarible_page(fetched)
}

} // verus!
