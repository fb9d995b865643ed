//! Verified core of a small token marketplace: a direct-sales desk that keeps
//! an inventory of listed tokens, and a sell-side order book.

pub mod address;
pub mod transfer;
pub mod direct_sales;
pub mod creator;
pub mod order_book;
pub mod bids;

