//! The request handlers of the JSON service, which takes the archive inline
//! in a JSON body and answers with plain JSON objects. Each handler is a
//! state machine over the same outside steps as the multipart service.
use vstd::prelude::*;

pub mod create;
pub mod delete;
pub mod model;
pub mod read;
pub mod update;
pub mod upload;

use self::model::Article;

verus! {

/// What the last outside step gave back.
pub enum Event {
    /// The request has arrived; nothing was done yet.
    Begin,
    /// The last action succeeded.
    Succeeded,
    /// The last action failed.
    Failed,
    /// The last action failed with this description of the error.
    FailedWith(String),
    /// The articles a listing returned.
    Articles(Vec<Article>),
    /// The article a lookup returned.
    Found(Article),
}

/// A JSON answer.
pub enum Reply {
    /// `{"success": success, "data": data}`.
    Status { success: bool, data: String },
    /// `{"success": false, "error": error}`.
    Refusal { error: String },
    /// `{"success": false, "data": {"error": error}}`.
    DatabaseFailure { error: String },
    /// The articles found.
    Articles(Vec<Article>),
    /// The article found.
    Article(Article),
}

/// `reply` is `{"success": success, "data": data}`.
pub open spec fn is_status(reply: Reply, success: bool, data: Seq<char>) -> bool {
    reply matches Reply::Status { success: s, data: d } && s == success && d@ == data
}

/// What to do next.
pub enum Action {
    /// Create the directory `dir`, then write `data` to the file `file_name`
    /// in it.
    StoreArchive { dir: String, file_name: String, data: Vec<u8> },
    /// Open the file `file_name` in `dir` and unpack it, as a gzip-compressed
    /// tar file, into `dir`.
    ExtractArchive { dir: String, file_name: String },
    /// Rewrite the relative links of the markdown file `path` so that they
    /// point under `url`.
    RewriteMarkdown { path: String, url: String },
    /// Store a new article.
    InsertArticle { title: String, content: String },
    /// List the articles whose numbers lie in `ids`, or all of them.
    ListArticles { ids: Option<(u32, u32)> },
    /// Look up the article with the title `title`.
    FindArticle { title: String },
    /// Remove the directory `path` and everything in it.
    RemoveDir { path: String },
    /// Rename the directory `from` to `to`.
    RenameDir { from: String, to: String },
    /// Give the article titled `old_title` a new title and content.
    UpdateArticle { title: String, content: String, old_title: String },
    /// Remove the article titled `title`.
    DeleteArticle { title: String },
    /// Answer the client; the request is over.
    Respond(Result<Reply, Reply>),
}

} // verus!
