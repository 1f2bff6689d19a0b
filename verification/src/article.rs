use crate::config::SiteConfig;
use crate::text::str_le;
use crate::text::lex_le;
use vstd::prelude::*;
use vstd::string::StringExecFns;

verus! {

/// The record of one article. Its body is kept apart, under `article_id`.
#[derive(Debug, Clone, PartialEq, Eq)]
pub struct Article {
    /// The title shown to readers.
    pub title: String,
    /// The slug under which the article's body is found. The list of
    /// articles does not keep it unique.
    pub article_id: String,
    /// A short summary, shown in previews and in the feed.
    pub description: String,
    /// The day of publication, written `yyyy-mm-dd`. Articles are ordered by
    /// this text as it stands; it is never read as a calendar date.
    pub date: String,
}

/// An article as four character sequences.
pub struct ArticleView {
    pub title: Seq<char>,
    pub article_id: Seq<char>,
    pub description: Seq<char>,
    pub date: Seq<char>,
}

impl View for Article {
    type V = ArticleView;

    open spec fn view(&self) -> ArticleView {
        ArticleView {
            title: self.title@,
            article_id: self.article_id@,
            description: self.description@,
            date: self.date@,
        }
    }
}

/// What a preview begins with, up to the title.
pub const PREVIEW_HTML_OPEN: &'static str =
    "\n            <div class='article_preview'>\n                <h2>";

/// What stands in a preview between the title and the date.
pub const PREVIEW_HTML_DATE: &'static str =
    "</h2>\n                <div class='preview_content'>\n                <p class='article_timestamp'>";

/// What stands in a preview between the date and the description.
pub const PREVIEW_HTML_DESCRIPTION: &'static str = "</p>\n                <p>";

/// What stands in a preview between the description and the article's id.
pub const PREVIEW_HTML_LINK: &'static str =
    "</p>\n                </div>\n                <a href='/./articles/";

/// What a preview ends with, behind the article's id.
pub const PREVIEW_HTML_CLOSE: &'static str = "'>Read</a>\n            </div>\n            ";

/// What a feed item begins with, up to the title.
pub const PREVIEW_XML_OPEN: &'static str = "\n            <item>\n                <title>";

/// What stands in a feed item between the title and the date.
pub const PREVIEW_XML_DATE: &'static str = "</title>\n                <pubDate>";

/// What stands in a feed item between the date and the description.
pub const PREVIEW_XML_DESCRIPTION: &'static str = "</pubDate>\n                <description>";

/// What stands in a feed item between the description and the site's address.
pub const PREVIEW_XML_LINK: &'static str = "</description>\n                <link>";

/// What stands in a feed item between the site's address and the article's id.
pub const PREVIEW_XML_PATH: &'static str = "/articles/";

/// What a feed item ends with, behind the article's id.
pub const PREVIEW_XML_CLOSE: &'static str = "</link>\n            </item>\n            ";

/// The HTML fragment that shows an article in a listing.
pub open spec fn preview_html(a: ArticleView) -> Seq<char> {
    PREVIEW_HTML_OPEN@ + a.title + PREVIEW_HTML_DATE@ + a.date + PREVIEW_HTML_DESCRIPTION@
        + a.description + PREVIEW_HTML_LINK@ + a.article_id + PREVIEW_HTML_CLOSE@
}

/// The `<item>` element that announces an article in the feed of the site
/// reached under `site_link`.
pub open spec fn preview_xml(a: ArticleView, site_link: Seq<char>) -> Seq<char> {
    PREVIEW_XML_OPEN@ + a.title + PREVIEW_XML_DATE@ + a.date + PREVIEW_XML_DESCRIPTION@
        + a.description + PREVIEW_XML_LINK@ + site_link + PREVIEW_XML_PATH@ + a.article_id
        + PREVIEW_XML_CLOSE@
}

impl Article {
    /// Builds the HTML fragment that shows this article in a listing.
    pub fn to_preview_html(&self) -> (html: String)
        ensures
            html@ == preview_html(self@),
    {
        let mut html = String::new();
        html.append(PREVIEW_HTML_OPEN);
        html.append(self.title.as_str());
        html.append(PREVIEW_HTML_DATE);
        html.append(self.date.as_str());
        html.append(PREVIEW_HTML_DESCRIPTION);
        html.append(self.description.as_str());
        html.append(PREVIEW_HTML_LINK);
        html.append(self.article_id.as_str());
        html.append(PREVIEW_HTML_CLOSE);
        assert(html@ =~= preview_html(self@));
        html
    }

    /// Builds the `<item>` element that announces this article in the feed.
    /// The link leads to the article under the site's own address.
    pub fn to_preview_xml(&self, config: &SiteConfig) -> (xml: String)
        ensures
            xml@ == preview_xml(self@, config.site_link@),
    {
        let mut xml = String::new();
        xml.append(PREVIEW_XML_OPEN);
        xml.append(self.title.as_str());
        xml.append(PREVIEW_XML_DATE);
        xml.append(self.date.as_str());
        xml.append(PREVIEW_XML_DESCRIPTION);
        xml.append(self.description.as_str());
        xml.append(PREVIEW_XML_LINK);
        xml.append(config.site_link.as_str());
        xml.append(PREVIEW_XML_PATH);
        xml.append(self.article_id.as_str());
        xml.append(PREVIEW_XML_CLOSE);
        assert(xml@ =~= preview_xml(self@, config.site_link@));
        xml
    }

    /// Whether this article is dated no earlier than `other`: its date sorts
    /// at or after the other's in lexical order.
    pub fn not_older_than(&self, other: &Article) -> (r: bool)
        ensures
            r == lex_le(other.date@, self.date@),
    {
        str_le(other.date.as_str(), self.date.as_str())
    }
}

} // verus!
