//! Normalizes NFT listings of two marketplaces, OpenSea and Rarible, into one
//! shape: an [`Item`] per listing and an [`ItemPage`] per document, with the
//! pagination data of the marketplace it came from.
//!
//! The library does no I/O. For each operation it names the [`Source`] of the
//! raw document, and it turns the text that the host retrieved into a page.
//!
//! - [`model`]: the unified items and pages.
//! - [`value`]: a JSON document as a tree, with lenient accessors.
//! - [`parser`]: the boundary to the `json` crate, which parses.
//! - [`text`]: string helpers.
//! - [`opensea`], [`rarible`]: the two normalizers and their page builders.
//! - [`service`]: the operations, from what the host obtained to a page.

pub mod model;
pub mod opensea;
pub mod parser;
pub mod rarible;
pub mod service;
pub mod text;
pub mod value;

pub use model::{collect_these, Failure, Item, ItemPage, ItemPages, Marketplace, Pagination};
pub use service::{
    get_first_opensea_page, get_first_rarible_page, get_opensea_continuation,
    get_opensea_items_json, get_rarible_continuation, get_rarible_continuation_json,
    get_rarible_items_json, Source,
};
pub use value::Json;
