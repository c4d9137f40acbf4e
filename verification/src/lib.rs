//! Listing and reading the posts of a link aggregator.

pub mod cursor;
pub mod facts;
pub mod feeds;
pub mod filter;
pub mod hex;
pub mod interval;
pub mod laws;
pub mod listing;
pub mod lookups;
pub mod numerals;
pub mod order;
pub mod paging;
pub mod plan;
pub mod policy;
pub mod prefetch;
pub mod query;
pub mod read;
pub mod reading;
pub mod run;
pub mod scan;
pub mod snapshot;
pub mod sorting;
pub mod tables;
pub mod types;
pub mod view;
