//! The unified listing model that both marketplaces are mapped to.

use vstd::prelude::*;

verus! {

/// The marketplace that a listing or a page came from.
#[derive(Clone, Copy, Debug, PartialEq, Eq, Structural)]
pub enum Marketplace {
    OpenSea,
    Rarible,
}

impl Marketplace {
    /// The name under which the marketplace is known to callers.
    pub open spec fn name_view(self) -> Seq<char> {
        match self {
            Marketplace::OpenSea => "OpenSea"@,
            Marketplace::Rarible => "Rarible"@,
        }
    }

    /// The name under which the marketplace is known to callers: `OpenSea`
    /// or `Rarible`.
    pub fn name(&self) -> (name: &'static str)
        ensures
            name@ == self.name_view(),
    {
        match self {
            Marketplace::OpenSea => "OpenSea",
            Marketplace::Rarible => "Rarible",
        }
    }
}

/// Why an operation gave no page.
#[derive(Clone, Copy, Debug, PartialEq, Eq, Structural)]
pub enum Failure {
    /// The host could not retrieve the document.
    Transport,
    /// The document's text is not valid JSON.
    Parse,
    /// The document's text holds a run of consecutive digits that is longer
    /// than the parser can take.
    DigitRun,
}

/// A normalized marketplace listing.
#[derive(Clone, Debug, PartialEq, Eq)]
pub struct Item {
    /// Identifier assigned by the marketplace; empty where the source omits it.
    pub id: String,
    /// Chain-level token identifier; empty where absent.
    pub token_id: String,
    pub marketplace: Marketplace,
    /// Chain name: `ETHEREUM` for every OpenSea item, the source's own value
    /// for a Rarible item.
    pub blockchain: String,
    pub name: String,
    pub description: String,
    /// Link to the item's detail page.
    pub detail_url: String,
    /// URL of a representative image.
    pub image_url: String,
}

/// What an [`Item`] holds, as mathematical values.
pub struct ItemView {
    pub id: Seq<char>,
    pub token_id: Seq<char>,
    pub marketplace: Marketplace,
    pub blockchain: Seq<char>,
    pub name: Seq<char>,
    pub description: Seq<char>,
    pub detail_url: Seq<char>,
    pub image_url: Seq<char>,
}

impl View for Item {
    type V = ItemView;

    open spec fn view(&self) -> ItemView {
        ItemView {
            id: self.id@,
            token_id: self.token_id@,
            marketplace: self.marketplace,
            blockchain: self.blockchain@,
            name: self.name@,
            description: self.description@,
            detail_url: self.detail_url@,
            image_url: self.image_url@,
        }
    }
}

/// One page of results from one marketplace.
///
/// Only one of the two pagination fields is live: `opensea_next_offset` on an
/// OpenSea page, `rarible_continuation` on a Rarible page. The other holds its
/// sentinel, `-1` or the empty string.
#[derive(Clone, Debug, PartialEq, Eq)]
pub struct ItemPage {
    pub marketplace: Marketplace,
    pub opensea_next_offset: i32,
    pub rarible_continuation: String,
    /// The listings, in the order of the source document.
    pub items: Vec<Item>,
}

/// What an [`ItemPage`] holds, as mathematical values.
pub struct ItemPageView {
    pub marketplace: Marketplace,
    pub opensea_next_offset: int,
    pub rarible_continuation: Seq<char>,
    pub items: Seq<ItemView>,
}

impl ItemPageView {
    /// The page's invariant: every item is of the page's marketplace, and the
    /// pagination field of the other marketplace holds its sentinel.
    pub open spec fn wf(self) -> bool {
        &&& forall|i: int|
            0 <= i < self.items.len() ==> (#[trigger] self.items[i]).marketplace
                == self.marketplace
        &&& self.marketplace == Marketplace::OpenSea ==> self.rarible_continuation.len() == 0
        &&& self.marketplace == Marketplace::Rarible ==> self.opensea_next_offset == -1
    }
}

/// The views of a sequence of items, in order.
pub open spec fn item_views(items: Seq<Item>) -> Seq<ItemView> {
    items.map_values(|item: Item| item@)
}

impl View for ItemPage {
    type V = ItemPageView;

    open spec fn view(&self) -> ItemPageView {
        ItemPageView {
            marketplace: self.marketplace,
            opensea_next_offset: self.opensea_next_offset as int,
            rarible_continuation: self.rarible_continuation@,
            items: item_views(self.items@),
        }
    }
}

/// What a caller passes back to ask for the page after this one: the
/// pagination field that is live on a page of its marketplace.
#[derive(Clone, Debug, PartialEq, Eq)]
pub enum Pagination {
    /// The offset of the next OpenSea page.
    Offset(i32),
    /// The cursor of the next Rarible page; empty where no page follows.
    Cursor(String),
}

/// What a [`Pagination`] holds, as mathematical values.
pub enum PaginationView {
    Offset(int),
    Cursor(Seq<char>),
}

impl View for Pagination {
    type V = PaginationView;

    open spec fn view(&self) -> PaginationView {
        match self {
            Pagination::Offset(offset) => PaginationView::Offset(*offset as int),
            Pagination::Cursor(cursor) => PaginationView::Cursor(cursor@),
        }
    }
}

impl ItemPageView {
    /// The live pagination field of the page.
    pub open spec fn pagination(self) -> PaginationView {
        match self.marketplace {
            Marketplace::OpenSea => PaginationView::Offset(self.opensea_next_offset),
            Marketplace::Rarible => PaginationView::Cursor(self.rarible_continuation),
        }
    }
}

impl ItemPage {
    /// The live pagination field of the page: the offset of an OpenSea page,
    /// the cursor of a Rarible page.
    pub fn pagination(&self) -> (next: Pagination)
        ensures
            next@ == self@.pagination(),
    {
        match self.marketplace {
            Marketplace::OpenSea => Pagination::Offset(self.opensea_next_offset),
            Marketplace::Rarible => Pagination::Cursor(self.rarible_continuation.clone()),
        }
    }
}

/// The outcome of an operation that gives a page, with the page as
/// mathematical values.
pub open spec fn outcome_view(outcome: Result<ItemPage, Failure>) -> Result<ItemPageView, Failure> {
    match outcome {
        Ok(page) => Ok(page@),
        Err(failure) => Err(failure),
    }
}

/// An OpenSea page and a Rarible page, returned together as one value.
#[derive(Clone, Debug, PartialEq, Eq)]
pub struct ItemPages {
    pub opensea_page: ItemPage,
    pub rarible_page: ItemPage,
}

/// What an [`ItemPages`] holds, as mathematical values.
pub struct ItemPagesView {
    pub opensea_page: ItemPageView,
    pub rarible_page: ItemPageView,
}

impl View for ItemPages {
    type V = ItemPagesView;

    open spec fn view(&self) -> ItemPagesView {
        ItemPagesView { opensea_page: self.opensea_page@, rarible_page: self.rarible_page@ }
    }
}

/// Pairs one page of each marketplace into a single value, unchanged.
pub fn collect_these(opensea_page: ItemPage, rarible_page: ItemPage) -> (pages: ItemPages)
    ensures
        pages.opensea_page == opensea_page,
        pages.rarible_page == rarible_page,
        pages@.opensea_page == opensea_page@,
        pages@.rarible_page == rarible_page@,
{
    ItemPages { opensea_page, rarible_page }
}

} // verus!
