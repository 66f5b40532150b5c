//! Where the service keeps articles on disk and where it publishes them,
//! and the paths and links of one article derived from these.
use vstd::prelude::*;

use crate::text::concat3;

verus! {

/// The public address of the site: the protocol, `://` and the domain.
pub open spec fn web_url_of(protocol: Seq<char>, domain: Seq<char>) -> Seq<char> {
    protocol + "://"@ + domain
}

/// The public address under which articles are served.
pub open spec fn web_articles_url_of(protocol: Seq<char>, domain: Seq<char>) -> Seq<char> {
    web_url_of(protocol, domain) + "/articles"@
}

/// The public address of the site (`{protocol}://{domain}`).
pub fn web_url(protocol: &str, domain: &str) -> (res: String)
    ensures
        res@ == web_url_of(protocol@, domain@),
{
    concat3(protocol, "://", domain)
}

/// The directory that holds all articles, and the public address under
/// which they are served.
pub struct Settings {
    pub articles_path: String,
    pub web_articles_url: String,
}

impl Settings {
    /// Settings from the articles directory, the protocol and the domain.
    pub fn new(articles_path: String, protocol: &str, domain: &str) -> (res: Settings)
        ensures
            res.articles_path@ == articles_path@,
            res.web_articles_url@ == web_articles_url_of(protocol@, domain@),
    {
        let web = web_url(protocol, domain);
        let web_articles_url = crate::text::concat2(web.as_str(), "/articles");
        Settings { articles_path, web_articles_url }
    }

    /// `{articles}/{slug}`: the directory of an article.
    pub open spec fn article_dir_of(&self, slug: Seq<char>) -> Seq<char> {
        self.articles_path@ + "/"@ + slug
    }

    /// `{articles}/{slug}/`: the directory an uploaded archive is stored in
    /// and unpacked into.
    pub open spec fn archive_dir_of(&self, slug: Seq<char>) -> Seq<char> {
        self.article_dir_of(slug) + "/"@
    }

    /// `{articles}/{slug}/main.md`: the markdown file of an article.
    pub open spec fn markdown_path_of(&self, slug: Seq<char>) -> Seq<char> {
        self.article_dir_of(slug) + "/main.md"@
    }

    /// `{web articles}/{slug}`: the public address of an article.
    pub open spec fn article_url_of(&self, slug: Seq<char>) -> Seq<char> {
        self.web_articles_url@ + "/"@ + slug
    }

    /// `{web articles}/{slug}/`: the public address of the directory of an
    /// article, under which its relative links are published.
    pub open spec fn article_folder_url_of(&self, slug: Seq<char>) -> Seq<char> {
        self.article_url_of(slug) + "/"@
    }

    /// `{web articles}/{slug}/main.md`: the public address of the markdown
    /// file of an article.
    pub open spec fn markdown_url_of(&self, slug: Seq<char>) -> Seq<char> {
        self.article_url_of(slug) + "/main.md"@
    }

    /// The directory of an article.
    pub fn article_dir(&self, slug: &str) -> (res: String)
        ensures
            res@ == self.article_dir_of(slug@),
    {
        concat3(self.articles_path.as_str(), "/", slug)
    }

    /// The directory an uploaded archive is stored in and unpacked into.
    pub fn archive_dir(&self, slug: &str) -> (res: String)
        ensures
            res@ == self.archive_dir_of(slug@),
    {
        let dir = self.article_dir(slug);
        crate::text::concat2(dir.as_str(), "/")
    }

    /// The markdown file of an article.
    pub fn markdown_path(&self, slug: &str) -> (res: String)
        ensures
            res@ == self.markdown_path_of(slug@),
    {
        let dir = self.article_dir(slug);
        crate::text::concat2(dir.as_str(), "/main.md")
    }

    /// The public address of an article.
    pub fn article_url(&self, slug: &str) -> (res: String)
        ensures
            res@ == self.article_url_of(slug@),
    {
        concat3(self.web_articles_url.as_str(), "/", slug)
    }

    /// The public address of the directory of an article.
    pub fn article_folder_url(&self, slug: &str) -> (res: String)
        ensures
            res@ == self.article_folder_url_of(slug@),
    {
        let url = self.article_url(slug);
        crate::text::concat2(url.as_str(), "/")
    }

    /// The public address of the markdown file of an article.
    pub fn markdown_url(&self, slug: &str) -> (res: String)
        ensures
            res@ == self.markdown_url_of(slug@),
    {
        let url = self.article_url(slug);
        crate::text::concat2(url.as_str(), "/main.md")
    }
}

} // verus!
