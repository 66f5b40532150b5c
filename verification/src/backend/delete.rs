//! Deleting an article in the JSON service.
use vstd::prelude::*;

use crate::backend::{is_status, Action, Event, Reply};
use crate::error::ArticleFsError;
use crate::settings::Settings;
use crate::text::{concat2, slug_of, slugify};

verus! {

/// Where a deletion stands.
pub enum DeletePhase {
    Start,
    RemovingFiles,
    Deleting,
    Finished,
}

impl DeletePhase {
    /// How far along the phase is; every step moves to a later phase.
    pub open spec fn rank(&self) -> nat {
        match self {
            DeletePhase::Start => 0,
            DeletePhase::RemovingFiles => 1,
            DeletePhase::Deleting => 2,
            DeletePhase::Finished => 3,
        }
    }
}

/// A deletion in progress.
pub struct DeleteFlow {
    pub settings: Settings,
    pub slug: String,
    pub phase: DeletePhase,
}

impl DeleteFlow {
    /// The events the deletion can take in its phase.
    pub open spec fn accepts(&self, event: &Event) -> bool {
        match self.phase {
            DeletePhase::Start => *event is Begin,
            DeletePhase::RemovingFiles | DeletePhase::Deleting => *event is Succeeded
                || *event is Failed,
            DeletePhase::Finished => false,
        }
    }

    /// A deletion of the article with the title `title`.
    pub fn new(settings: Settings, title: String) -> (flow: DeleteFlow)
        ensures
            flow.phase is Start,
            flow.settings == settings,
            flow.slug@ == slug_of(title@),
    {
        DeleteFlow { settings, slug: slugify(title.as_str()), phase: DeletePhase::Start }
    }
}

/// The outcome of removing an article's files: a failed removal is an
/// `ArticleFsError`.
pub fn delete_deprecated_files(removed: bool) -> (res: Result<(), ArticleFsError>)
    ensures
        removed <==> res is Ok,
        !removed ==> res matches Err(ArticleFsError::FailedToDelete),
{
    if removed {
        Ok(())
    } else {
        Err(ArticleFsError::FailedToDelete)
    }
}

/// One step of deleting an article: `{articles}/{slug}` is removed, and only
/// if that worked the record titled with the slug is deleted.
pub fn delete_article(flow: &mut DeleteFlow, event: Event) -> (action: Action)
    requires
        old(flow).accepts(&event),
    ensures
        action is Respond <==> final(flow).phase is Finished,
        final(flow).phase.rank() > old(flow).phase.rank(),
        final(flow).settings == old(flow).settings,
        final(flow).slug == old(flow).slug,
        old(flow).phase is Start ==> {
            &&& final(flow).phase is RemovingFiles
            &&& action matches Action::RemoveDir { path }
                && path@ == old(flow).settings.article_dir_of(old(flow).slug@)
        },
        old(flow).phase is RemovingFiles && event is Failed ==> {
            &&& final(flow).phase is Finished
            &&& action matches Action::Respond(Err(reply))
                && is_status(reply, false, "Failed to delete article!"@)
        },
        old(flow).phase is RemovingFiles && event is Succeeded ==> {
            &&& final(flow).phase is Deleting
            &&& action matches Action::DeleteArticle { title } && title@ == old(flow).slug@
        },
        old(flow).phase is Deleting && event is Failed ==> {
            &&& final(flow).phase is Finished
            &&& action matches Action::Respond(Err(reply))
                && is_status(reply, false, "Failed to delete article!"@)
        },
        old(flow).phase is Deleting && event is Succeeded ==> {
            &&& final(flow).phase is Finished
            &&& action matches Action::Respond(Ok(reply))
                && is_status(reply, true, "deleted article :"@ + old(flow).slug@)
        },
{
    match flow.phase {
        DeletePhase::Start => {
            flow.phase = DeletePhase::RemovingFiles;
            Action::RemoveDir { path: flow.settings.article_dir(flow.slug.as_str()) }
        },
        DeletePhase::RemovingFiles => {
            if let Event::Succeeded = event {
                flow.phase = DeletePhase::Deleting;
                Action::DeleteArticle { title: flow.slug.clone() }
            } else {
                flow.phase = DeletePhase::Finished;
                Action::Respond(
                    Err(Reply::Status { success: false, data: "Failed to delete article!".to_owned() }),
                )
            }
        },
        DeletePhase::Deleting => {
            flow.phase = DeletePhase::Finished;
            if let Event::Succeeded = event {
                Action::Respond(
                    Ok(
                        Reply::Status {
                            success: true,
                            data: concat2("deleted article :", flow.slug.as_str()),
                        },
                    ),
                )
            } else {
                Action::Respond(
                    Err(Reply::Status { success: false, data: "Failed to delete article!".to_owned() }),
                )
            }
        },
        DeletePhase::Finished => vstd::pervasive::unreached(),
    }
}

} // verus!
