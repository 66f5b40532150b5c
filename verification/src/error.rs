//! The errors the article handlers answer with.
use vstd::prelude::*;

use crate::text::concat2;

verus! {

/// Why a request on articles failed, with a reason for the client.
pub enum ArticleError {
    Create(String),
    Read(String),
    Update(String),
    Delete(String),
}

impl ArticleError {
    /// The text of the error: the operation that failed, then the reason.
    pub open spec fn message(&self) -> Seq<char> {
        match self {
            ArticleError::Create(reason) => "Creation error: failed to create. "@ + reason@,
            ArticleError::Read(reason) => "Reading error: failed to read. "@ + reason@,
            ArticleError::Update(reason) => "Updating error: failed to update. "@ + reason@,
            ArticleError::Delete(reason) => "Deleting error: failed to delete. "@ + reason@,
        }
    }

    /// The text of the error.
    pub fn to_string(&self) -> (res: String)
        ensures
            res@ == self.message(),
    {
        match self {
            ArticleError::Create(reason) => concat2(
                "Creation error: failed to create. ",
                reason.as_str(),
            ),
            ArticleError::Read(reason) => concat2("Reading error: failed to read. ", reason.as_str()),
            ArticleError::Update(reason) => concat2(
                "Updating error: failed to update. ",
                reason.as_str(),
            ),
            ArticleError::Delete(reason) => concat2(
                "Deleting error: failed to delete. ",
                reason.as_str(),
            ),
        }
    }
}

/// A failure of the file system behind the articles.
pub enum ArticleFsError {
    FailedToDelete,
}

impl ArticleFsError {
    /// The text of the error.
    pub open spec fn message(&self) -> Seq<char> {
        match self {
            ArticleFsError::FailedToDelete => "Failed to delete article from file system!"@,
        }
    }

    /// The text of the error.
    pub fn to_string(&self) -> (res: String)
        ensures
            res@ == self.message(),
    {
        match self {
            ArticleFsError::FailedToDelete => "Failed to delete article from file system!".to_owned(),
        }
    }
}

} // verus!
