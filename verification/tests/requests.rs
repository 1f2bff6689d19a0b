use simpleblog::article::Article;
use simpleblog::config::SiteConfig;
use simpleblog::handlers::{article, articles, get_feed, homepage};
use simpleblog::pages::{render_article, render_articles, render_homepage};
use simpleblog::response::{document, not_found, page, Status};
use simpleblog::store::{read_failure, StoreError};
use simpleblog::submit::{begin_submit, credentials_match, finish_submit, SubmitStep};

fn post(day: u32) -> Article {
    Article {
        title: format!("Post {}", day),
        article_id: format!("post-{}", day),
        description: format!("Written on day {}", day),
        date: format!("2024-05-{:02}", day),
    }
}

fn posts(days: std::ops::RangeInclusive<u32>) -> Vec<Article> {
    days.map(post).collect()
}

fn site() -> SiteConfig {
    SiteConfig {
        port: "127.0.0.1:8000".to_string(),
        file_path: "./content/".to_string(),
        site_title: "Site".to_string(),
        site_description: "Desc".to_string(),
        site_link: "https://site.example".to_string(),
        admin_username: "luke".to_string(),
        admin_password: "s3cret".to_string(),
    }
}

#[test]
fn status_codes() {
    assert_eq!(Status::Success.code(), 200);
    assert_eq!(Status::BadRequest.code(), 400);
    assert_eq!(Status::NotFound.code(), 404);
    assert_eq!(Status::MethodNotAllowed.code(), 405);
    assert_eq!(Status::InternalServerError.code(), 500);
}

#[test]
fn page_is_served_as_html() {
    let r = page("<p>x</p>".to_string());
    assert_eq!(r.status, Status::Success);
    assert_eq!(r.content_type, "text/html; charset=utf-8");
    assert_eq!(r.body, "<p>x</p>");
}

#[test]
fn document_is_served_as_xml() {
    let r = document("<rss/>".to_string());
    assert_eq!(r.status, Status::Success);
    assert_eq!(r.content_type, "text/xml; charset=utf-8");
    assert_eq!(r.body, "<rss/>");
}

#[test]
fn not_found_shows_the_default_page() {
    let r = not_found(None);
    assert_eq!(r.status, Status::NotFound);
    assert_eq!(r.status.code(), 404);
    assert_eq!(r.content_type, "text/html; charset=utf-8");
    assert_eq!(r.body, "<h1>404 Page not found</h1><p>Ironic I know</p>");
}

#[test]
fn not_found_shows_the_sites_own_page() {
    let r = not_found(Some("<h1>Gone</h1>".to_string()));
    assert_eq!(r.status, Status::NotFound);
    assert_eq!(r.content_type, "text/html; charset=utf-8");
    assert_eq!(r.body, "<h1>Gone</h1>");
}

#[test]
fn missing_article_is_not_found_and_no_error() {
    let template = "<article>{article_content}</article>".to_string();
    let r = article(Ok(template), Err(StoreError::NotFound), None);
    assert_eq!(r.status, Status::NotFound);
    assert_eq!(r.status.code(), 404);
    assert_ne!(r.status, Status::InternalServerError);
    assert_eq!(r.content_type, "text/html; charset=utf-8");
    assert_eq!(r.body, "<h1>404 Page not found</h1><p>Ironic I know</p>");
}

#[test]
fn missing_article_shows_the_sites_own_not_found_page() {
    let template = "<article>{article_content}</article>".to_string();
    let r = article(Ok(template), Err(StoreError::NotFound), Some("<h1>Nope</h1>".to_string()));
    assert_eq!(r.status, Status::NotFound);
    assert_eq!(r.body, "<h1>Nope</h1>");
}

#[test]
fn every_failure_ends_at_the_not_found_page() {
    let errors =
        [StoreError::NotFound, StoreError::ParseError, StoreError::IoError, StoreError::SerializeError];
    for e in errors {
        let expected = not_found(None);
        let r = homepage(Err(e), Ok(posts(1..=2)), None);
        assert_eq!((r.status, r.body), (expected.status, expected.body.clone()));
        let r = homepage(Ok("{latest_article}".to_string()), Err(e), None);
        assert_eq!((r.status, r.body), (expected.status, expected.body.clone()));
        let r = article(Err(e), Ok("<p>x</p>".to_string()), None);
        assert_eq!((r.status, r.body), (expected.status, expected.body.clone()));
        let r = article(Err(e), Err(e), None);
        assert_eq!((r.status, r.body), (expected.status, expected.body.clone()));
        let r = articles(Err(e), Ok(posts(1..=2)), Some(0), None);
        assert_eq!((r.status, r.body), (expected.status, expected.body.clone()));
        let r = articles(Ok("{articles}".to_string()), Err(e), None, None);
        assert_eq!((r.status, r.body), (expected.status, expected.body.clone()));
        let r = get_feed(&site(), Err(e), None);
        assert_eq!((r.status, r.body), (expected.status, expected.body.clone()));
        assert_eq!(r.content_type, "text/html; charset=utf-8");
    }
}

#[test]
fn homepage_shows_the_latest_article() {
    let list = vec![post(3), post(9), post(1)];
    let r = homepage(Ok("<main>{latest_article}</main>".to_string()), Ok(list), None);
    assert_eq!(r.status, Status::Success);
    assert_eq!(r.content_type, "text/html; charset=utf-8");
    assert_eq!(r.body, format!("<main>{}</main>", post(9).to_preview_html()));
}

#[test]
fn homepage_without_articles_is_the_template() {
    assert_eq!(render_homepage("<main>{latest_article}</main>", Vec::new()), "<main>{latest_article}</main>");
}

#[test]
fn homepage_shows_the_first_of_two_latest() {
    let mut a = post(5);
    a.article_id = "morning".to_string();
    let mut b = post(5);
    b.article_id = "evening".to_string();
    let body = render_homepage("{latest_article}", vec![post(4), a.clone(), b]);
    assert_eq!(body, a.to_preview_html());
}

#[test]
fn article_page_holds_the_body() {
    let r = article(
        Ok("<article>{article_content}</article>".to_string()),
        Ok("<h1 id='hi'>Hi</h1>\n".to_string()),
        Some("unused".to_string()),
    );
    assert_eq!(r.status, Status::Success);
    assert_eq!(r.content_type, "text/html; charset=utf-8");
    assert_eq!(r.body, "<article><h1 id='hi'>Hi</h1>\n</article>");
    assert_eq!(render_article("{article_content}{article_content}", "x"), "xx");
}

#[test]
fn index_of_a_few_articles_shows_all_and_no_way_on() {
    let list = posts(1..=7);
    let r = articles(Ok("<div>{articles}</div><nav>{links}</nav>".to_string()), Ok(list), Some(0), None);
    assert_eq!(r.status, Status::Success);
    assert_eq!(r.content_type, "text/html; charset=utf-8");
    let mut shown = String::new();
    for day in (1..=7).rev() {
        shown.push_str(&post(day).to_preview_html());
    }
    assert_eq!(r.body, format!("<div>{}</div><nav><ul class = 'article_bar'></ul></nav>", shown));
    assert!(!r.body.contains("Next"));
    assert!(!r.body.contains("Last"));
}

#[test]
fn index_without_a_page_number_is_the_first_page() {
    let with = articles(Ok("{articles}{links}".to_string()), Ok(posts(1..=25)), Some(0), None);
    let without = articles(Ok("{articles}{links}".to_string()), Ok(posts(1..=25)), None, None);
    assert_eq!(with.body, without.body);
}

#[test]
fn index_pages_of_twenty_five_articles() {
    let template = "{articles}#{links}";
    let first = render_articles(template, posts(1..=25), 0);
    let mut shown = String::new();
    for day in (16..=25).rev() {
        shown.push_str(&post(day).to_preview_html());
    }
    assert_eq!(
        first,
        format!(
            "{}#<ul class = 'article_bar'>\
             <li><a href=articles?index=1>Next</a></li>\
             <li><a href=articles?index=1>Last</a></li>\
             </ul>",
            shown
        )
    );
    let third = render_articles(template, posts(1..=25), 2);
    let mut shown = String::new();
    for day in (1..=5).rev() {
        shown.push_str(&post(day).to_preview_html());
    }
    assert_eq!(
        third,
        format!(
            "{}#<ul class = 'article_bar'>\
             <li><a href=articles?index=0>First</a></li>\
             <li><a href=articles?index=1>Previous</a></li>\
             </ul>",
            shown
        )
    );
}

#[test]
fn index_beyond_the_last_page_shows_no_article() {
    let body = render_articles("[{articles}]", posts(1..=25), 3);
    assert_eq!(body, "[]");
    let body = render_articles("[{articles}]", posts(1..=25), u16::MAX);
    assert_eq!(body, "[]");
}

#[test]
fn index_does_not_expand_placeholders_in_articles() {
    let mut a = post(1);
    a.title = "{links}".to_string();
    let body = render_articles("{articles}", vec![a.clone()], 0);
    assert_eq!(body, a.to_preview_html());
}

#[test]
fn feed_is_served_as_xml() {
    let r = get_feed(&site(), Ok(posts(1..=3)), None);
    assert_eq!(r.status, Status::Success);
    assert_eq!(r.content_type, "text/xml; charset=utf-8");
    assert_eq!(r.body, simpleblog::feed::render_feed(&site(), posts(1..=3)));
    assert!(r.body.contains("<link>https://site.example/articles/post-3</link>"));
}

#[test]
fn submission_of_the_administrator_is_added() {
    assert!(credentials_match(&site(), "luke", "s3cret"));
    assert_eq!(begin_submit(&site(), "luke", "s3cret"), SubmitStep::Append);
    assert_eq!(finish_submit(Ok(())), Status::Success);
    assert_eq!(finish_submit(Ok(())).code(), 200);
}

#[test]
fn submission_with_wrong_credentials_is_turned_away() {
    let rejected = SubmitStep::Respond(Status::MethodNotAllowed);
    assert_eq!(begin_submit(&site(), "luke", "wrong"), rejected);
    assert_eq!(begin_submit(&site(), "mallory", "s3cret"), rejected);
    assert_eq!(begin_submit(&site(), "Luke", "s3cret"), rejected);
    assert_eq!(begin_submit(&site(), "luke", "S3CRET"), rejected);
    assert_eq!(begin_submit(&site(), "", ""), rejected);
    assert_eq!(begin_submit(&site(), "s3cret", "luke"), rejected);
    assert!(!credentials_match(&site(), "luke", "s3cret "));
    assert_eq!(Status::MethodNotAllowed.code(), 405);
}

#[test]
fn read_failures_are_told_apart() {
    assert_eq!(read_failure(true), StoreError::NotFound);
    assert_eq!(read_failure(false), StoreError::IoError);
}

#[test]
fn failed_addition_is_answered_by_its_kind() {
    assert_eq!(finish_submit(Err(StoreError::SerializeError)), Status::BadRequest);
    assert_eq!(finish_submit(Err(StoreError::IoError)), Status::InternalServerError);
    assert_eq!(finish_submit(Err(StoreError::NotFound)), Status::InternalServerError);
    assert_eq!(finish_submit(Err(StoreError::ParseError)), Status::InternalServerError);
    assert_eq!(StoreError::SerializeError.status().code(), 400);
    assert_eq!(StoreError::IoError.status().code(), 500);
}
