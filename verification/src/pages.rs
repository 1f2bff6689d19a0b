use crate::article::preview_html;
use crate::article::Article;
use crate::order::by_date;
use crate::order::lemma_by_date_permutes;
use crate::order::order;
use crate::paging::full_pages;
use crate::paging::page_count;
use crate::paging::page_of;
use crate::paging::paginate;
use crate::paging::PAGE_SIZE;
use crate::template::binding_views;
use crate::template::render;
use crate::template::rendered;
use crate::template::substitute;
use crate::template::substituted;
use crate::template::Binding;
use crate::template::BindingView;
use crate::text::decimal;
use crate::text::push_decimal;
use vstd::prelude::*;
use vstd::string::StringExecFns;

verus! {

/// The placeholder of the homepage template for the latest article.
pub const TOKEN_LATEST_ARTICLE: &'static str = "{latest_article}";

/// The placeholder of the article template for the article's body.
pub const TOKEN_ARTICLE_CONTENT: &'static str = "{article_content}";

/// The placeholder of the index template for the previews of one page.
pub const TOKEN_ARTICLES: &'static str = "{articles}";

/// The placeholder of the index template for the navigation links.
pub const TOKEN_LINKS: &'static str = "{links}";

/// What the navigation bar begins with.
pub const NAV_OPEN: &'static str = "<ul class = 'article_bar'>";

/// The link to the first page of the index.
pub const NAV_FIRST: &'static str = "<li><a href=articles?index=0>First</a></li>";

/// What a link to a numbered page begins with, up to the number.
pub const NAV_LINK: &'static str = "<li><a href=articles?index=";

/// What the link to the page before ends with, behind the number.
pub const NAV_PREVIOUS: &'static str = ">Previous</a></li>";

/// What the link to the next page ends with, behind the number.
pub const NAV_NEXT: &'static str = ">Next</a></li>";

/// What the link to the last page ends with, behind the number.
pub const NAV_LAST: &'static str = ">Last</a></li>";

/// What the navigation bar ends with.
pub const NAV_CLOSE: &'static str = "</ul>";

/// The previews of the articles of `s`, one behind the other.
pub open spec fn previews_html(s: Seq<Article>) -> Seq<char>
    decreases s.len(),
{
    if s.len() == 0 {
        Seq::empty()
    } else {
        previews_html(s.drop_last()) + preview_html(s.last()@)
    }
}

/// A link of the navigation bar to page `target` of the index, with the
/// closing part `label`.
pub open spec fn nav_link(target: nat, label: Seq<char>) -> Seq<char> {
    NAV_LINK@ + decimal(target) + label
}

/// The links that lead back from page `index`: to the first page and to
/// the page before. The first page has neither.
pub open spec fn nav_back(index: nat) -> Seq<char> {
    if index != 0 {
        NAV_FIRST@ + nav_link((index - 1) as nat, NAV_PREVIOUS@)
    } else {
        Seq::empty()
    }
}

/// The links that lead on from page `index` of an index of `pages` full
/// pages: to the next page and to the last full page. A page at or behind
/// `pages` has neither, so a last page that is not full is never the
/// target of "Last".
pub open spec fn nav_forward(index: nat, pages: nat) -> Seq<char> {
    if index < pages {
        nav_link(index + 1, NAV_NEXT@) + nav_link((pages - 1) as nat, NAV_LAST@)
    } else {
        Seq::empty()
    }
}

/// The navigation bar of page `index` of an index of `pages` full pages.
pub open spec fn navigation(index: nat, pages: nat) -> Seq<char> {
    NAV_OPEN@ + nav_back(index) + nav_forward(index, pages) + NAV_CLOSE@
}

/// The homepage: the template with the preview of the latest article in
/// place of its placeholder. Without any article the template is left as
/// it is.
pub open spec fn homepage_html(template: Seq<char>, articles: Seq<Article>) -> Seq<char> {
    if articles.len() == 0 {
        template
    } else {
        substituted(template, TOKEN_LATEST_ARTICLE@, preview_html(by_date(articles).first()@))
    }
}

/// The page of one article: the template with the article's body, as HTML,
/// in place of its placeholder.
pub open spec fn article_html(template: Seq<char>, content: Seq<char>) -> Seq<char> {
    substituted(template, TOKEN_ARTICLE_CONTENT@, content)
}

/// The bindings of page `index` of the article index: the previews of the
/// page's articles, and the navigation bar.
pub open spec fn index_bindings(articles: Seq<Article>, index: nat) -> Seq<BindingView> {
    seq![
        BindingView {
            token: TOKEN_ARTICLES@,
            value: previews_html(page_of(by_date(articles), index, PAGE_SIZE as nat)),
        },
        BindingView {
            token: TOKEN_LINKS@,
            value: navigation(index, full_pages(articles.len(), PAGE_SIZE as nat)),
        },
    ]
}

/// Page `index` of the article index: the template with the previews of
/// the page's articles, newest first, and the navigation bar in place of
/// their placeholders.
pub open spec fn articles_html(template: Seq<char>, articles: Seq<Article>, index: nat) -> Seq<
    char,
> {
    rendered(template, index_bindings(articles, index))
}

/// An index of fewer articles than fill a page shows them all on its first
/// page, newest first, and its navigation bar offers no link.
pub proof fn lemma_short_index_shows_all(template: Seq<char>, articles: Seq<Article>)
    requires
        articles.len() < PAGE_SIZE,
    ensures
        articles_html(template, articles, 0) == rendered(
            template,
            seq![
                BindingView { token: TOKEN_ARTICLES@, value: previews_html(by_date(articles)) },
                BindingView { token: TOKEN_LINKS@, value: NAV_OPEN@ + NAV_CLOSE@ },
            ],
        ),
{
    lemma_by_date_permutes(articles);
    assert(page_of(by_date(articles), 0, PAGE_SIZE as nat) =~= by_date(articles));
    assert(navigation(0, full_pages(articles.len(), PAGE_SIZE as nat)) =~= NAV_OPEN@ + NAV_CLOSE@);
}

/// Builds the previews of `articles`, one behind the other.
pub fn previews(articles: &[Article]) -> (html: String)
    ensures
        html@ == previews_html(articles@),
{
    let mut html = String::new();
    let mut i: usize = 0;
    while i < articles.len()
        invariant
            i <= articles.len(),
            html@ == previews_html(articles@.take(i as int)),
        decreases articles.len() - i,
    {
        let preview = articles[i].to_preview_html();
        html.append(preview.as_str());
        i += 1;
        assert(articles@.take(i as int).drop_last() =~= articles@.take(i - 1));
    }
    assert(articles@.take(i as int) =~= articles@);
    html
}

/// Builds the navigation bar of page `index` of an index of `pages` full
/// pages.
pub fn navigation_links(index: u16, pages: u16) -> (nav: String)
    ensures
        nav@ == navigation(index as nat, pages as nat),
{
    let mut nav = String::new();
    nav.append(NAV_OPEN);
    if index != 0 {
        nav.append(NAV_FIRST);
        nav.append(NAV_LINK);
        push_decimal(&mut nav, index - 1);
        nav.append(NAV_PREVIOUS);
    }
    if index < pages {
        nav.append(NAV_LINK);
        push_decimal(&mut nav, index + 1);
        nav.append(NAV_NEXT);
        nav.append(NAV_LINK);
        push_decimal(&mut nav, pages - 1);
        nav.append(NAV_LAST);
    }
    nav.append(NAV_CLOSE);
    assert(nav@ =~= navigation(index as nat, pages as nat));
    nav
}

/// Renders the homepage from its template and the list of articles.
pub fn render_homepage(template: &str, articles: Vec<Article>) -> (html: String)
    ensures
        html@ == homepage_html(template@, articles@),
{
    let ordered = order(articles);
    if ordered.len() == 0 {
        String::from_str(template)
    } else {
        let preview = ordered[0].to_preview_html();
        substitute(template, TOKEN_LATEST_ARTICLE, preview.as_str())
    }
}

/// Renders the page of one article from its template and the article's
/// body, already converted to HTML.
pub fn render_article(template: &str, content: &str) -> (html: String)
    ensures
        html@ == article_html(template@, content@),
{
    substitute(template, TOKEN_ARTICLE_CONTENT, content)
}

/// Renders page `index` of the article index from its template and the
/// list of articles.
pub fn render_articles(template: &str, articles: Vec<Article>, index: u16) -> (html: String)
    requires
        articles.len() / PAGE_SIZE <= u16::MAX,
    ensures
        html@ == articles_html(template@, articles@, index as nat),
{
    let total = articles.len();
    let ordered = order(articles);
    let page = paginate(ordered.as_slice(), index, PAGE_SIZE);
    let pages = page_count(total, PAGE_SIZE);
    let mut bindings: Vec<Binding> = Vec::new();
    bindings.push(Binding { token: String::from_str(TOKEN_ARTICLES), value: previews(page) });
    bindings.push(
        Binding { token: String::from_str(TOKEN_LINKS), value: navigation_links(index, pages) },
    );
    assert(binding_views(bindings@) =~= index_bindings(articles@, index as nat));
    render(template, &bindings)
}

} // verus!
