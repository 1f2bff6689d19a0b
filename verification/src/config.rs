use vstd::prelude::*;

verus! {

/// The settings of a site. They are read once, when the server starts, and
/// do not change while it runs.
#[derive(Debug, Clone)]
pub struct SiteConfig {
    /// The address that the server listens on.
    pub port: String,
    /// The content root: the directory of the templates, the article list,
    /// the article bodies and the static assets.
    pub file_path: String,
    /// The title of the site, as the feed gives it.
    pub site_title: String,
    /// The description of the site, as the feed gives it.
    pub site_description: String,
    /// The address under which the site is reached from outside.
    pub site_link: String,
    /// The name that may submit articles.
    pub admin_username: String,
    /// The password that goes with `admin_username`.
    pub admin_password: String,
}

} // verus!
