//! Reading articles in the JSON service.
use vstd::prelude::*;

use crate::backend::model::Article;
use crate::backend::{is_status, Action, Event, Reply};
use crate::model::ArticleListPagination;
use crate::pagination::{first_id, last_id, page_bounds, LAST_PAGE};
use crate::text::{slug_of, slugify};

verus! {

/// Where a listing stands.
pub enum ListPhase {
    Start,
    Listing,
    Finished,
}

impl ListPhase {
    /// How far along the phase is; every step moves to a later phase.
    pub open spec fn rank(&self) -> nat {
        match self {
            ListPhase::Start => 0,
            ListPhase::Listing => 1,
            ListPhase::Finished => 2,
        }
    }
}

/// A listing of articles in progress.
pub struct ListFlow {
    pub page: Option<u32>,
    pub phase: ListPhase,
}

impl ListFlow {
    /// The events the listing can take in its phase.
    pub open spec fn accepts(&self, event: &Event) -> bool {
        match self.phase {
            ListPhase::Start => *event is Begin,
            ListPhase::Listing => *event is Articles || *event is FailedWith,
            ListPhase::Finished => false,
        }
    }

    /// A listing of the page the query asks for, or of every article.
    pub fn new(pagination: ArticleListPagination) -> (flow: ListFlow)
        ensures
            flow.phase is Start,
            flow.page == pagination.page,
    {
        ListFlow { page: pagination.page, phase: ListPhase::Start }
    }
}

/// One step of listing articles: a page below 1 is refused, page `p` lists
/// the articles numbered `10p - 9` to `10p`, no page lists them all. The
/// articles found are the answer; a failed listing answers with the error's
/// description.
pub fn read_article_list(flow: &mut ListFlow, event: Event) -> (action: Action)
    requires
        old(flow).accepts(&event),
        old(flow).page matches Some(p) ==> p <= LAST_PAGE,
    ensures
        action is Respond <==> final(flow).phase is Finished,
        final(flow).phase.rank() > old(flow).phase.rank(),
        final(flow).page == old(flow).page,
        old(flow).phase is Start ==> (match old(flow).page {
            Some(p) => if p < 1 {
                &&& final(flow).phase is Finished
                &&& action matches Action::Respond(Err(Reply::Refusal { error }))
                    && error@ == "page should be >= 1"@
            } else {
                &&& final(flow).phase is Listing
                &&& action matches Action::ListArticles { ids: Some((first, last)) }
                    && first == first_id(p as int) && last == last_id(p as int)
            },
            None => {
                &&& final(flow).phase is Listing
                &&& action matches Action::ListArticles { ids: None }
            },
        }),
        old(flow).phase is Listing ==> (event matches Event::Articles(found) ==> {
            &&& final(flow).phase is Finished
            &&& action matches Action::Respond(Ok(Reply::Articles(answer))) && answer@ == found@
        }),
        old(flow).phase is Listing ==> (event matches Event::FailedWith(e) ==> {
            &&& final(flow).phase is Finished
            &&& action matches Action::Respond(Err(Reply::DatabaseFailure { error }))
                && error@ == e@
        }),
{
    match flow.phase {
        ListPhase::Start => {
            match flow.page {
                Some(page) => {
                    if page < 1 {
                        flow.phase = ListPhase::Finished;
                        Action::Respond(
                            Err(Reply::Refusal { error: "page should be >= 1".to_owned() }),
                        )
                    } else {
                        flow.phase = ListPhase::Listing;
                        Action::ListArticles { ids: Some(page_bounds(page)) }
                    }
                },
                None => {
                    flow.phase = ListPhase::Listing;
                    Action::ListArticles { ids: None }
                },
            }
        },
        ListPhase::Listing => {
            flow.phase = ListPhase::Finished;
            match event {
                Event::Articles(found) => Action::Respond(Ok(Reply::Articles(found))),
                Event::FailedWith(e) => Action::Respond(Err(Reply::DatabaseFailure { error: e })),
                _ => vstd::pervasive::unreached(),
            }
        },
        ListPhase::Finished => vstd::pervasive::unreached(),
    }
}

/// Where a lookup of one article stands.
pub enum ReadPhase {
    Start,
    Finding,
    Finished,
}

impl ReadPhase {
    /// How far along the phase is; every step moves to a later phase.
    pub open spec fn rank(&self) -> nat {
        match self {
            ReadPhase::Start => 0,
            ReadPhase::Finding => 1,
            ReadPhase::Finished => 2,
        }
    }
}

/// A lookup of one article in progress.
pub struct ReadFlow {
    pub slug: String,
    pub phase: ReadPhase,
}

impl ReadFlow {
    /// The events the lookup can take in its phase.
    pub open spec fn accepts(&self, event: &Event) -> bool {
        match self.phase {
            ReadPhase::Start => *event is Begin,
            ReadPhase::Finding => *event is Found || *event is Failed,
            ReadPhase::Finished => false,
        }
    }

    /// A lookup of the article with the title `title`.
    pub fn new(title: String) -> (flow: ReadFlow)
        ensures
            flow.phase is Start,
            flow.slug@ == slug_of(title@),
    {
        ReadFlow { slug: slugify(title.as_str()), phase: ReadPhase::Start }
    }
}

/// One step of reading one article: the article is looked up by the slug of
/// the title asked for (the JSON service stores slugs as titles); the article
/// found is the answer.
pub fn read_article_exact(flow: &mut ReadFlow, event: Event) -> (action: Action)
    requires
        old(flow).accepts(&event),
    ensures
        action is Respond <==> final(flow).phase is Finished,
        final(flow).phase.rank() > old(flow).phase.rank(),
        final(flow).slug == old(flow).slug,
        old(flow).phase is Start ==> {
            &&& final(flow).phase is Finding
            &&& action matches Action::FindArticle { title } && title@ == old(flow).slug@
        },
        old(flow).phase is Finding ==> (event matches Event::Found(article) ==> {
            &&& final(flow).phase is Finished
            &&& action matches Action::Respond(Ok(Reply::Article(answer))) && answer == article
        }),
        old(flow).phase is Finding && event is Failed ==> {
            &&& final(flow).phase is Finished
            &&& action matches Action::Respond(Err(reply))
                && is_status(reply, false, "failed to get article!"@)
        },
{
    match flow.phase {
        ReadPhase::Start => {
            flow.phase = ReadPhase::Finding;
            Action::FindArticle { title: flow.slug.clone() }
        },
        ReadPhase::Finding => {
            flow.phase = ReadPhase::Finished;
            match event {
                Event::Found(article) => Action::Respond(Ok(Reply::Article(article))),
                _ => Action::Respond(
                    Err(
                        Reply::Status { success: false, data: "failed to get article!".to_owned() },
                    ),
                ),
            }
        },
        ReadPhase::Finished => vstd::pervasive::unreached(),
    }
}

} // verus!
