//! Verified core of a Google Scholar profile scraper: the data model, the
//! extraction of profile and publication data from fetched pages, the paging
//! of publication requests, and the CSV export format.

pub mod model;
pub mod text;
pub mod export;
pub mod error;
pub mod html;
pub mod extract;
pub mod json;
pub mod fetch;
pub mod input;
