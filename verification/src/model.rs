//! The records of the articles service and the bodies of its requests.
use vstd::prelude::*;

verus! {

/// chrono's `NaiveDateTime`: the moment an article was created, as the
/// database stores it. Nothing is claimed of it; articles carry it unopened.
#[verifier::external_type_specification]
#[verifier::external_body]
pub struct ExNaiveDateTime(chrono::NaiveDateTime);

/// An article as stored: its title, the slug its files live under, and the
/// public address of its markdown (`content`).
pub struct Article {
    pub id: i64,
    pub title: String,
    pub slug: String,
    pub content: String,
    pub created_at: chrono::NaiveDateTime,
}

/// The body of a request that creates an article: a title and a `.tar.gz`
/// archive holding `main.md` and its images.
pub struct CreateArticleRequest {
    pub title: String,
    pub archive: Vec<u8>,
}

/// The body of a request that updates an article: the current title, and a
/// new title, a new archive, or both.
pub struct UpdateArticleRequest {
    pub title: String,
    pub new_title: Option<String>,
    pub archive: Option<Vec<u8>>,
}

/// Which page of the article list is asked for, ten articles a page.
pub struct ArticleListPagination {
    pub page: Option<u32>,
}

/// An article named by its number.
pub struct ObjectById {
    pub id: Option<u32>,
}

/// An article named by its title.
pub struct ObjectByTitle {
    pub title: String,
}

} // verus!
