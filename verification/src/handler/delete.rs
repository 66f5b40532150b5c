//! Deleting an article: remove its files, then its record.
use vstd::prelude::*;

use crate::error::ArticleError;
use crate::handler::{Action, Event};
use crate::response::DeleteArticleResponse;
use crate::settings::Settings;
use crate::text::{slug_of, slugify};

verus! {

/// Where a deletion stands.
pub enum DeletePhase {
    Start,
    RemovingFiles,
    Deleting,
    Finished,
}

impl DeletePhase {
    /// How far along the phase is; every step moves to a later phase.
    pub open spec fn rank(&self) -> nat {
        match self {
            DeletePhase::Start => 0,
            DeletePhase::RemovingFiles => 1,
            DeletePhase::Deleting => 2,
            DeletePhase::Finished => 3,
        }
    }
}

/// A deletion in progress.
pub struct DeleteFlow {
    pub settings: Settings,
    pub title: String,
    pub slug: String,
    pub phase: DeletePhase,
}

impl DeleteFlow {
    /// The slug is the title's.
    pub open spec fn wf(&self) -> bool {
        self.slug@ == slug_of(self.title@)
    }

    /// The events the deletion can take in its phase.
    pub open spec fn accepts(&self, event: &Event) -> bool {
        match self.phase {
            DeletePhase::Start => *event is Begin,
            DeletePhase::RemovingFiles | DeletePhase::Deleting => *event is Succeeded
                || *event is Failed,
            DeletePhase::Finished => false,
        }
    }

    /// A deletion of the article with the title `title`.
    pub fn new(settings: Settings, title: String) -> (flow: DeleteFlow)
        ensures
            flow.wf(),
            flow.phase is Start,
            flow.settings == settings,
            flow.title@ == title@,
    {
        let slug = slugify(title.as_str());
        DeleteFlow { settings, title, slug, phase: DeletePhase::Start }
    }
}

/// The answer to a successful deletion.
pub open spec fn is_deleted_response(r: &DeleteArticleResponse) -> bool {
    &&& r.status@ == "success"@
    &&& r.message matches Some(m) && m@ == "Deleted article"@
    &&& r.data is None
}

/// One step of deleting an article: `{articles}/{slug}` is removed, and
/// whether that worked or not, the record stored under the slug is deleted;
/// the deletion of the record decides the answer.
pub fn delete_article(flow: &mut DeleteFlow, event: Event) -> (action: Action<DeleteArticleResponse>)
    requires
        old(flow).wf(),
        old(flow).accepts(&event),
    ensures
        action is Respond <==> final(flow).phase is Finished,
        final(flow).phase.rank() > old(flow).phase.rank(),
        final(flow).wf(),
        final(flow).settings == old(flow).settings,
        final(flow).title == old(flow).title,
        final(flow).slug == old(flow).slug,
        old(flow).phase is Start ==> {
            &&& final(flow).phase is RemovingFiles
            &&& action matches Action::RemoveDir { path }
                && path@ == old(flow).settings.article_dir_of(old(flow).slug@)
        },
        old(flow).phase is RemovingFiles ==> {
            &&& final(flow).phase is Deleting
            &&& action matches Action::DeleteArticle { slug } && slug@ == old(flow).slug@
        },
        old(flow).phase is Deleting && event is Succeeded ==> {
            &&& final(flow).phase is Finished
            &&& action matches Action::Respond(Ok(r)) && is_deleted_response(&r)
        },
        old(flow).phase is Deleting && event is Failed ==> {
            &&& final(flow).phase is Finished
            &&& action matches Action::Respond(Err(ArticleError::Delete(reason)))
                && reason@ == "Failed to delete article"@
        },
{
    match flow.phase {
        DeletePhase::Start => {
            flow.phase = DeletePhase::RemovingFiles;
            Action::RemoveDir { path: flow.settings.article_dir(flow.slug.as_str()) }
        },
        DeletePhase::RemovingFiles => {
            flow.phase = DeletePhase::Deleting;
            Action::DeleteArticle { slug: flow.slug.clone() }
        },
        DeletePhase::Deleting => {
            flow.phase = DeletePhase::Finished;
            if let Event::Succeeded = event {
                Action::Respond(
                    Ok(
                        DeleteArticleResponse {
                            status: "success".to_owned(),
                            message: Some("Deleted article".to_owned()),
                            data: None,
                        },
                    ),
                )
            } else {
                Action::Respond(Err(ArticleError::Delete("Failed to delete article".to_owned())))
            }
        },
        DeletePhase::Finished => vstd::pervasive::unreached(),
    }
}

} // verus!
