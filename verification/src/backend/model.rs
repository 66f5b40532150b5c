//! The records and request bodies of the JSON service.
use vstd::prelude::*;

verus! {

/// A new article: its title and its `.tar.gz` archive, given as the bytes
/// of its base64 text.
pub struct CreateArticle {
    pub title: String,
    pub archive: Vec<u8>,
}

/// A change to an article: its current title, and a new title, a new
/// archive (as the bytes of its base64 text), or both.
pub struct UpdateArticle {
    pub title: String,
    pub new_title: Option<String>,
    pub archive: Option<Vec<u8>>,
}

/// An article as stored: its title and the public address of its markdown
/// (`content`).
pub struct Article {
    pub id: i64,
    pub title: String,
    pub content: String,
    pub created_at: chrono::NaiveDateTime,
}

/// An article without its content.
pub struct ArticleScheme {
    pub id: i64,
    pub title: String,
    pub created_at: chrono::NaiveDateTime,
}

/// A new article sent as a multipart form.
pub struct UploadArticleRequest {
    pub title: String,
    pub archive: Vec<u8>,
}

/// A change to an article sent as a multipart form.
pub struct UpdateArticleRequest {
    pub title: String,
    pub new_title: Option<String>,
    pub archive: Option<Vec<u8>>,
}

} // verus!
