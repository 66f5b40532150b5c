//! The request handlers of the articles service, each a state machine: it
//! takes what the last outside step gave (`Event`) and says what to do next
//! (`Action`), ending with the answer to the client.
use vstd::prelude::*;

use crate::error::ArticleError;
use crate::model::Article;

pub mod create;
pub mod read;
pub mod update;
pub mod delete;

verus! {

/// What the last outside step gave back.
pub enum Event {
    /// The request has arrived; nothing was done yet.
    Begin,
    /// The last action succeeded.
    Succeeded,
    /// The last action failed.
    Failed,
    /// The articles a listing returned.
    Articles(Vec<Article>),
    /// The article a lookup returned.
    Found(Article),
}

/// What to do next.
pub enum Action<R> {
    /// Look up the article stored under `slug`.
    FindArticle { slug: String },
    /// Create the directory `dir`, then write `data` to the file `file_name`
    /// in it, replacing what was there.
    StoreArchive { dir: String, file_name: String, data: Vec<u8> },
    /// Unpack the gzip-compressed tar file `archive` into `dir`.
    ExtractArchive { archive: String, dir: String },
    /// Rewrite the relative links of the markdown file `path` so that they
    /// point under `url`.
    RewriteMarkdown { path: String, url: String },
    /// Store a new article.
    InsertArticle { title: String, slug: String, content: String },
    /// List the articles whose numbers lie in `ids`, or all of them.
    ListArticles { ids: Option<(u32, u32)> },
    /// Remove the directory `path` and everything in it.
    RemoveDir { path: String },
    /// Rename the directory `from` to `to`.
    RenameDir { from: String, to: String },
    /// Give the article stored under `old_slug` a new title, content and slug.
    UpdateArticle { title: String, content: String, slug: String, old_slug: String },
    /// Remove the article stored under `slug`.
    DeleteArticle { slug: String },
    /// Answer the client; the request is over.
    Respond(Result<R, ArticleError>),
}

} // verus!
