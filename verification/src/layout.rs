use vstd::prelude::*;
use vstd::string::StringExecFns;

verus! {

/// The file of the homepage template, under the content root.
pub const HOMEPAGE_TEMPLATE: &'static str = "index.html";

/// The file of the template of the article index.
pub const INDEX_TEMPLATE: &'static str = "articles.html";

/// The file of the template of an article's page.
pub const ARTICLE_TEMPLATE: &'static str = "article_template.html";

/// The file of the site's own not-found page. A site need not have one.
pub const NOT_FOUND_PAGE: &'static str = "fnfpage.html";

/// The file of the list of articles.
pub const ARTICLE_LIST: &'static str = "articles.yml";

/// The directory of the article bodies, under the content root.
pub const BODY_DIRECTORY: &'static str = "articles/";

/// The ending of the file of an article's body.
pub const BODY_ENDING: &'static str = ".md";

/// The directory of the static assets, behind the content root.
pub const ASSETS_DIRECTORY: &'static str = "/assets";

/// The path of an article's body: the content root, the directory of the
/// bodies, the article's id, and the ending.
pub open spec fn body_path(root: Seq<char>, article_id: Seq<char>) -> Seq<char> {
    root + BODY_DIRECTORY@ + article_id + BODY_ENDING@
}

/// The path of the file `name` under the content root `root`. The root is
/// taken as written, so it ends in a separator where one is meant.
pub fn file_under(root: &str, name: &str) -> (path: String)
    ensures
        path@ == root@ + name@,
{
    let mut path = String::from_str(root);
    path.append(name);
    path
}

/// The path of the body of the article `article_id` under the content root
/// `root`. The id is taken as written.
pub fn body_file(root: &str, article_id: &str) -> (path: String)
    ensures
        path@ == body_path(root@, article_id@),
{
    let mut path = String::from_str(root);
    path.append(BODY_DIRECTORY);
    path.append(article_id);
    path.append(BODY_ENDING);
    path
}

} // verus!
