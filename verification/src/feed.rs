use crate::article::preview_xml;
use crate::article::Article;
use crate::config::SiteConfig;
use crate::order::by_date;
use crate::order::order;
use crate::paging::least;
use vstd::prelude::*;
use vstd::slice::slice_subrange;
use vstd::string::StringExecFns;

verus! {

/// Number of articles that the feed announces.
pub const FEED_SIZE: usize = 10;

/// What the feed begins with, up to the site's title.
pub const FEED_OPEN: &'static str =
    "\n        <rss version=\"2.0\">\n        <channel>\n        <title>";

/// What stands in the feed between the site's title and its address.
pub const FEED_LINK: &'static str = "</title>\n        <link>";

/// What stands in the feed between the site's address and its description.
pub const FEED_DESCRIPTION: &'static str = "</link>\n        <description>";

/// What stands in the feed between the site's description and the items.
pub const FEED_ITEMS: &'static str = "</description>\n        ";

/// What the feed ends with, behind the items.
pub const FEED_CLOSE: &'static str = "\n        </channel>\n        </rss>\n        ";

/// The `<item>` elements of the articles of `s`, one behind the other, for
/// the site reached under `site_link`.
pub open spec fn items_xml(s: Seq<Article>, site_link: Seq<char>) -> Seq<char>
    decreases s.len(),
{
    if s.len() == 0 {
        Seq::empty()
    } else {
        items_xml(s.drop_last(), site_link) + preview_xml(s.last()@, site_link)
    }
}

/// The articles that the feed announces: the `FEED_SIZE` newest, or all of
/// them if there are fewer, newest first.
pub open spec fn latest(articles: Seq<Article>) -> Seq<Article> {
    by_date(articles).take(least(articles.len(), FEED_SIZE as nat) as int)
}

/// The RSS 2.0 document of a site: its title, link and description, and
/// the items of its latest articles.
pub open spec fn feed_xml(
    site_title: Seq<char>,
    site_link: Seq<char>,
    site_description: Seq<char>,
    articles: Seq<Article>,
) -> Seq<char> {
    FEED_OPEN@ + site_title + FEED_LINK@ + site_link + FEED_DESCRIPTION@ + site_description
        + FEED_ITEMS@ + items_xml(latest(articles), site_link) + FEED_CLOSE@
}

/// Builds the `<item>` elements of `articles`, one behind the other.
pub fn items(articles: &[Article], config: &SiteConfig) -> (xml: String)
    ensures
        xml@ == items_xml(articles@, config.site_link@),
{
    let mut xml = String::new();
    let mut i: usize = 0;
    while i < articles.len()
        invariant
            i <= articles.len(),
            xml@ == items_xml(articles@.take(i as int), config.site_link@),
        decreases articles.len() - i,
    {
        let item = articles[i].to_preview_xml(config);
        xml.append(item.as_str());
        i += 1;
        assert(articles@.take(i as int).drop_last() =~= articles@.take(i - 1));
    }
    assert(articles@.take(i as int) =~= articles@);
    xml
}

/// Renders the RSS feed of the site from its settings and the list of
/// articles.
pub fn render_feed(config: &SiteConfig, articles: Vec<Article>) -> (xml: String)
    ensures
        xml@ == feed_xml(
            config.site_title@,
            config.site_link@,
            config.site_description@,
            articles@,
        ),
{
    let ordered = order(articles);
    let shown: usize = if ordered.len() < FEED_SIZE {
        ordered.len()
    } else {
        FEED_SIZE
    };
    let content = items(slice_subrange(ordered.as_slice(), 0, shown), config);
    let mut xml = String::new();
    xml.append(FEED_OPEN);
    xml.append(config.site_title.as_str());
    xml.append(FEED_LINK);
    xml.append(config.site_link.as_str());
    xml.append(FEED_DESCRIPTION);
    xml.append(config.site_description.as_str());
    xml.append(FEED_ITEMS);
    xml.append(content.as_str());
    xml.append(FEED_CLOSE);
    assert(xml@ =~= feed_xml(
        config.site_title@,
        config.site_link@,
        config.site_description@,
        articles@,
    ));
    xml
}

} // verus!
