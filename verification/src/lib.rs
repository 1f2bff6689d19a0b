//! The pages of a small blog, as values: given the site's templates and its
//! list of articles, this library says what the homepage, the article
//! index, an article's page and the RSS feed hold, and how a submitted
//! article is answered. It reads no file and serves no request; the
//! program around it does, and hands it what it read.
//!
//! Everything here is stated over character sequences and proved: the
//! order of the articles, the cut of a page, the text that a template
//! becomes.

pub mod article;
pub mod config;
pub mod feed;
pub mod handlers;
pub mod layout;
pub mod order;
pub mod pages;
pub mod paging;
pub mod response;
pub mod store;
pub mod submit;
pub mod template;
pub mod text;

