//! The bodies the articles service answers successful requests with.
use vstd::prelude::*;

use crate::model::Article;

verus! {

/// The answer to a request that created an article.
pub struct CreateArticleResponse {
    pub status: String,
    pub message: Option<String>,
    pub data: Option<Article>,
}

/// The answer to a request that read one article.
pub struct ReadArticleResponse {
    pub status: String,
    pub message: Option<String>,
    pub data: Option<Article>,
}

/// The answer to a request that read a list of articles.
pub struct ReadArticlesResponse {
    pub status: String,
    pub message: Option<String>,
    pub data: Option<Vec<Article>>,
}

/// The answer to a request that updated an article.
pub struct UpdateArticleResponse {
    pub status: String,
    pub message: Option<String>,
    pub data: Option<Article>,
}

/// The answer to a request that deleted an article.
pub struct DeleteArticleResponse {
    pub status: String,
    pub message: Option<String>,
    pub data: Option<Article>,
}

} // verus!
