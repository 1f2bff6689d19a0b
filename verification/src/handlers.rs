use crate::article::Article;
use crate::config::SiteConfig;
use crate::feed::feed_xml;
use crate::feed::render_feed;
use crate::pages::article_html;
use crate::pages::articles_html;
use crate::pages::homepage_html;
use crate::pages::render_article;
use crate::pages::render_articles;
use crate::pages::render_homepage;
use crate::paging::PAGE_SIZE;
use crate::response::document;
use crate::response::is_document;
use crate::response::is_not_found;
use crate::response::is_page;
use crate::response::not_found;
use crate::response::page;
use crate::response::Response;
use crate::store::StoreError;
use vstd::prelude::*;

verus! {

/// The page of the index that a request asks for: the one it names, the
/// first one if it names none.
pub open spec fn requested_page(index: Option<u16>) -> nat {
    match index {
        Some(i) => i as nat,
        None => 0,
    }
}

/// Answers a request for the homepage. `template` is what reading the
/// homepage template gave, `articles` what loading the list of articles
/// gave. If either failed, the answer is the not-found page, whatever the
/// cause.
pub fn homepage(
    template: Result<String, StoreError>,
    articles: Result<Vec<Article>, StoreError>,
    not_found_page: Option<String>,
) -> (response: Response)
    ensures
        match (template, articles) {
            (Ok(t), Ok(a)) => is_page(response, homepage_html(t@, a@)),
            _ => is_not_found(response, not_found_page),
        },
{
    match template {
        Ok(t) => match articles {
            Ok(a) => page(render_homepage(t.as_str(), a)),
            Err(_) => not_found(not_found_page),
        },
        Err(_) => not_found(not_found_page),
    }
}

/// Answers a request for one article. `template` is what reading the
/// article template gave, `content` what reading the article's body and
/// converting it to HTML gave. If either failed, as it does for an article
/// that is not there, the answer is the not-found page.
pub fn article(
    template: Result<String, StoreError>,
    content: Result<String, StoreError>,
    not_found_page: Option<String>,
) -> (response: Response)
    ensures
        match (template, content) {
            (Ok(t), Ok(c)) => is_page(response, article_html(t@, c@)),
            _ => is_not_found(response, not_found_page),
        },
{
    match template {
        Ok(t) => match content {
            Ok(c) => page(render_article(t.as_str(), c.as_str())),
            Err(_) => not_found(not_found_page),
        },
        Err(_) => not_found(not_found_page),
    }
}

/// Answers a request for a page of the article index. `template` is what
/// reading the index template gave, `list` what loading the list of
/// articles gave. A request that names no page gets the first. If the
/// template or the list failed, the answer is the not-found page.
pub fn articles(
    template: Result<String, StoreError>,
    list: Result<Vec<Article>, StoreError>,
    index: Option<u16>,
    not_found_page: Option<String>,
) -> (response: Response)
    requires
        list matches Ok(l) ==> l.len() / PAGE_SIZE <= u16::MAX,
    ensures
        match (template, list) {
            (Ok(t), Ok(l)) => is_page(response, articles_html(t@, l@, requested_page(index))),
            _ => is_not_found(response, not_found_page),
        },
{
    let true_index: u16 = match index {
        Some(i) => i,
        None => 0,
    };
    match template {
        Ok(t) => match list {
            Ok(l) => page(render_articles(t.as_str(), l, true_index)),
            Err(_) => not_found(not_found_page),
        },
        Err(_) => not_found(not_found_page),
    }
}

/// Answers a request for the feed. `articles` is what loading the list of
/// articles gave; if that failed, the answer is the not-found page.
pub fn get_feed(
    config: &SiteConfig,
    articles: Result<Vec<Article>, StoreError>,
    not_found_page: Option<String>,
) -> (response: Response)
    ensures
        match articles {
            Ok(a) => is_document(
                response,
                feed_xml(config.site_title@, config.site_link@, config.site_description@, a@),
            ),
            Err(_) => is_not_found(response, not_found_page),
        },
{
    match articles {
        Ok(a) => document(render_feed(config, a)),
        Err(_) => not_found(not_found_page),
    }
}

} // verus!
