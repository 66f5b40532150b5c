//! Reading articles: a page of the list, or one article by its title.
use vstd::prelude::*;

use crate::error::ArticleError;
use crate::handler::{Action, Event};
use crate::model::{Article, ArticleListPagination};
use crate::pagination::{first_id, last_id, page_bounds, LAST_PAGE};
use crate::response::{ReadArticleResponse, ReadArticlesResponse};
use crate::text::{slug_of, slugify};

verus! {

/// Where a listing stands.
pub enum ListPhase {
    Start,
    Listing,
    Finished,
}

impl ListPhase {
    /// How far along the phase is; every step moves to a later phase.
    pub open spec fn rank(&self) -> nat {
        match self {
            ListPhase::Start => 0,
            ListPhase::Listing => 1,
            ListPhase::Finished => 2,
        }
    }
}

/// A listing of articles in progress.
pub struct ListFlow {
    pub page: Option<u32>,
    pub phase: ListPhase,
}

impl ListFlow {
    /// The events the listing can take in its phase.
    pub open spec fn accepts(&self, event: &Event) -> bool {
        match self.phase {
            ListPhase::Start => *event is Begin,
            ListPhase::Listing => *event is Articles || *event is Failed,
            ListPhase::Finished => false,
        }
    }

    /// A listing of the page the query asks for, or of every article when
    /// it names none.
    pub fn new(pagination: ArticleListPagination) -> (flow: ListFlow)
        ensures
            flow.phase is Start,
            flow.page == pagination.page,
    {
        ListFlow { page: pagination.page, phase: ListPhase::Start }
    }
}

/// The answer to a successful listing of `articles`.
pub open spec fn is_list_response(r: &ReadArticlesResponse, articles: Seq<Article>) -> bool {
    &&& r.status@ == "success"@
    &&& r.message matches Some(m) && m@ == "Read articles!"@
    &&& r.data matches Some(d) && d@ == articles
}

/// One step of listing articles.
///
/// On arrival a page below 1 is refused; page `p` lists the articles
/// numbered `10p - 9` to `10p`, and no page lists every article. The
/// articles found are the answer; a failed listing is an error.
pub fn read_articles(flow: &mut ListFlow, event: Event) -> (action: Action<ReadArticlesResponse>)
    requires
        old(flow).accepts(&event),
        old(flow).page matches Some(p) ==> p <= LAST_PAGE,
    ensures
        action is Respond <==> final(flow).phase is Finished,
        final(flow).phase.rank() > old(flow).phase.rank(),
        final(flow).page == old(flow).page,
        old(flow).phase is Start ==> (match old(flow).page {
            Some(p) => if p < 1 {
                &&& final(flow).phase is Finished
                &&& action matches Action::Respond(Err(ArticleError::Read(reason)))
                    && reason@ == "Page should be >= 1"@
            } else {
                &&& final(flow).phase is Listing
                &&& action matches Action::ListArticles { ids: Some((first, last)) }
                    && first == first_id(p as int) && last == last_id(p as int)
            },
            None => {
                &&& final(flow).phase is Listing
                &&& action matches Action::ListArticles { ids: None }
            },
        }),
        old(flow).phase is Listing ==> (event matches Event::Articles(found) ==> {
            &&& final(flow).phase is Finished
            &&& action matches Action::Respond(Ok(r)) && is_list_response(&r, found@)
        }),
        old(flow).phase is Listing && event is Failed ==> {
            &&& final(flow).phase is Finished
            &&& action matches Action::Respond(Err(ArticleError::Read(reason)))
                && reason@ == "No such objects."@
        },
{
    match flow.phase {
        ListPhase::Start => {
            match flow.page {
                Some(page) => {
                    if page < 1 {
                        flow.phase = ListPhase::Finished;
                        Action::Respond(Err(ArticleError::Read("Page should be >= 1".to_owned())))
                    } else {
                        flow.phase = ListPhase::Listing;
                        Action::ListArticles { ids: Some(page_bounds(page)) }
                    }
                },
                None => {
                    flow.phase = ListPhase::Listing;
                    Action::ListArticles { ids: None }
                },
            }
        },
        ListPhase::Listing => {
            flow.phase = ListPhase::Finished;
            match event {
                Event::Articles(found) => Action::Respond(
                    Ok(
                        ReadArticlesResponse {
                            status: "success".to_owned(),
                            message: Some("Read articles!".to_owned()),
                            data: Some(found),
                        },
                    ),
                ),
                _ => Action::Respond(Err(ArticleError::Read("No such objects.".to_owned()))),
            }
        },
        ListPhase::Finished => vstd::pervasive::unreached(),
    }
}

/// Where a lookup of one article stands.
pub enum ReadPhase {
    Start,
    Finding,
    Finished,
}

impl ReadPhase {
    /// How far along the phase is; every step moves to a later phase.
    pub open spec fn rank(&self) -> nat {
        match self {
            ReadPhase::Start => 0,
            ReadPhase::Finding => 1,
            ReadPhase::Finished => 2,
        }
    }
}

/// A lookup of one article in progress.
pub struct ReadFlow {
    pub title: String,
    pub slug: String,
    pub phase: ReadPhase,
}

impl ReadFlow {
    /// The slug is the title's.
    pub open spec fn wf(&self) -> bool {
        self.slug@ == slug_of(self.title@)
    }

    /// The events the lookup can take in its phase.
    pub open spec fn accepts(&self, event: &Event) -> bool {
        match self.phase {
            ReadPhase::Start => *event is Begin,
            ReadPhase::Finding => *event is Found || *event is Failed,
            ReadPhase::Finished => false,
        }
    }

    /// A lookup of the article with the title `title`.
    pub fn new(title: String) -> (flow: ReadFlow)
        ensures
            flow.wf(),
            flow.phase is Start,
            flow.title@ == title@,
    {
        let slug = slugify(title.as_str());
        ReadFlow { title, slug, phase: ReadPhase::Start }
    }
}

/// The answer to a successful lookup that found `article`.
pub open spec fn is_read_response(r: &ReadArticleResponse, article: Article) -> bool {
    &&& r.status@ == "success"@
    &&& r.message matches Some(m) && m@ == "Read article!"@
    &&& r.data == Some(article)
}

/// One step of reading one article: it is looked up by the slug of the
/// title it was asked for; the article found is the answer, and a failed
/// lookup is an error.
pub fn read_article(flow: &mut ReadFlow, event: Event) -> (action: Action<ReadArticleResponse>)
    requires
        old(flow).wf(),
        old(flow).accepts(&event),
    ensures
        action is Respond <==> final(flow).phase is Finished,
        final(flow).phase.rank() > old(flow).phase.rank(),
        final(flow).wf(),
        final(flow).title == old(flow).title,
        final(flow).slug == old(flow).slug,
        old(flow).phase is Start ==> {
            &&& final(flow).phase is Finding
            &&& action matches Action::FindArticle { slug } && slug@ == old(flow).slug@
        },
        old(flow).phase is Finding ==> (event matches Event::Found(article) ==> {
            &&& final(flow).phase is Finished
            &&& action matches Action::Respond(Ok(r)) && is_read_response(&r, article)
        }),
        old(flow).phase is Finding && event is Failed ==> {
            &&& final(flow).phase is Finished
            &&& action matches Action::Respond(Err(ArticleError::Read(reason)))
                && reason@ == "Failed to read this article"@
        },
{
    match flow.phase {
        ReadPhase::Start => {
            flow.phase = ReadPhase::Finding;
            Action::FindArticle { slug: flow.slug.clone() }
        },
        ReadPhase::Finding => {
            flow.phase = ReadPhase::Finished;
            match event {
                Event::Found(article) => Action::Respond(
                    Ok(
                        ReadArticleResponse {
                            status: "success".to_owned(),
                            message: Some("Read article!".to_owned()),
                            data: Some(article),
                        },
                    ),
                ),
                _ => Action::Respond(
                    Err(ArticleError::Read("Failed to read this article".to_owned())),
                ),
            }
        },
        ReadPhase::Finished => vstd::pervasive::unreached(),
    }
}

} // verus!
