//! Updating an article: replace its files with a new archive, move it under
//! a new title, or both, then record the change.
use vstd::prelude::*;

use crate::error::ArticleError;
use crate::handler::{Action, Event};
use crate::model::UpdateArticleRequest;
use crate::response::UpdateArticleResponse;
use crate::settings::Settings;
use crate::text::{concat3, slug_of, slugify};

verus! {

/// Where an update stands.
pub enum UpdatePhase {
    Start,
    RemovingOld,
    StoringArchive,
    ExtractingArchive,
    Renaming,
    Updating,
    Finished,
}

impl UpdatePhase {
    /// How far along the phase is; every step moves to a later phase.
    pub open spec fn rank(&self) -> nat {
        match self {
            UpdatePhase::Start => 0,
            UpdatePhase::RemovingOld => 1,
            UpdatePhase::StoringArchive => 2,
            UpdatePhase::ExtractingArchive => 3,
            UpdatePhase::Renaming => 4,
            UpdatePhase::Updating => 5,
            UpdatePhase::Finished => 6,
        }
    }
}

/// An update in progress.
pub struct UpdateFlow {
    pub settings: Settings,
    pub title: String,
    pub new_title: Option<String>,
    pub slug: String,
    pub updated_slug: String,
    pub archive: Option<Vec<u8>>,
    pub phase: UpdatePhase,
}

impl UpdateFlow {
    /// The title the article has after the update: the new one if given.
    pub open spec fn stored_title(&self) -> Seq<char> {
        match self.new_title {
            Some(t) => t@,
            None => self.title@,
        }
    }

    /// Both slugs are those of their titles, and the archive is kept until it
    /// is stored.
    pub open spec fn wf(&self) -> bool {
        &&& self.slug@ == slug_of(self.title@)
        &&& self.updated_slug@ == slug_of(self.stored_title())
        &&& (self.phase is RemovingOld ==> self.archive is Some)
    }

    /// The events the update can take in its phase.
    pub open spec fn accepts(&self, event: &Event) -> bool {
        match self.phase {
            UpdatePhase::Start => *event is Begin,
            UpdatePhase::RemovingOld | UpdatePhase::StoringArchive | UpdatePhase::Updating => {
                *event is Succeeded || *event is Failed
            },
            UpdatePhase::ExtractingArchive | UpdatePhase::Renaming => *event is Succeeded,
            UpdatePhase::Finished => false,
        }
    }

    /// An update as the request describes it.
    pub fn new(settings: Settings, request: UpdateArticleRequest) -> (flow: UpdateFlow)
        ensures
            flow.wf(),
            flow.phase is Start,
            flow.settings == settings,
            flow.title@ == request.title@,
            flow.new_title == request.new_title,
            flow.archive == request.archive,
    {
        let slug = slugify(request.title.as_str());
        let updated_slug = match &request.new_title {
            Some(t) => slugify(t.as_str()),
            None => slugify(request.title.as_str()),
        };
        UpdateFlow {
            settings,
            title: request.title,
            new_title: request.new_title,
            slug,
            updated_slug,
            archive: request.archive,
            phase: UpdatePhase::Start,
        }
    }

    /// The request to record the update.
    fn record(&self) -> (action: Action<UpdateArticleResponse>)
        requires
            self.wf(),
        ensures
            self.records(action),
    {
        let title = match &self.new_title {
            Some(t) => t.clone(),
            None => self.title.clone(),
        };
        let content = self.settings.markdown_url(self.updated_slug.as_str());
        Action::UpdateArticle {
            title,
            content,
            slug: self.updated_slug.clone(),
            old_slug: self.slug.clone(),
        }
    }

    /// `action` records the update: the article stored under the old slug
    /// gets the new title, the new slug, and the address of the markdown
    /// under the new slug.
    pub open spec fn records(&self, action: Action<UpdateArticleResponse>) -> bool {
        action matches Action::UpdateArticle { title, content, slug, old_slug }
            && title@ == self.stored_title()
            && content@ == self.settings.markdown_url_of(self.updated_slug@)
            && slug@ == self.updated_slug@
            && old_slug@ == self.slug@
    }

    /// `action` moves the article's directory to the new slug.
    pub open spec fn renames(&self, action: Action<UpdateArticleResponse>) -> bool {
        action matches Action::RenameDir { from, to }
            && from@ == self.settings.article_dir_of(self.slug@)
            && to@ == self.settings.article_dir_of(self.updated_slug@)
    }

    /// The request to move the article's directory to the new slug.
    fn rename(&self) -> (action: Action<UpdateArticleResponse>)
        ensures
            self.renames(action),
    {
        Action::RenameDir {
            from: self.settings.article_dir(self.slug.as_str()),
            to: self.settings.article_dir(self.updated_slug.as_str()),
        }
    }
}

/// The answer to a successful update.
pub open spec fn is_updated_response(r: &UpdateArticleResponse) -> bool {
    &&& r.status@ == "success"@
    &&& r.message matches Some(m) && m@ == "Updated!"@
    &&& r.data is None
}

/// One step of updating an article.
///
/// A new archive first removes `{articles}/{slug}`, then is stored and
/// unpacked in `{articles}/{slug}/` (the old slug); a new title then renames
/// `{articles}/{slug}` to `{articles}/{new slug}`. A request with neither is
/// refused before anything is touched. Last, the article stored under the
/// old slug gets the new title, slug and markdown address.
pub fn update_article(flow: &mut UpdateFlow, event: Event) -> (action: Action<UpdateArticleResponse>)
    requires
        old(flow).wf(),
        old(flow).accepts(&event),
    ensures
        action is Respond <==> final(flow).phase is Finished,
        final(flow).phase.rank() > old(flow).phase.rank(),
        final(flow).wf(),
        final(flow).settings == old(flow).settings,
        final(flow).title == old(flow).title,
        final(flow).new_title == old(flow).new_title,
        final(flow).slug == old(flow).slug,
        final(flow).updated_slug == old(flow).updated_slug,
        !(old(flow).phase is RemovingOld && event is Succeeded) ==> final(flow).archive
            == old(flow).archive,
        old(flow).phase is RemovingOld && event is Succeeded ==> final(flow).archive is None,
        old(flow).phase is Start && old(flow).archive is Some ==> {
            &&& final(flow).phase is RemovingOld
            &&& action matches Action::RemoveDir { path }
                && path@ == old(flow).settings.article_dir_of(old(flow).slug@)
        },
        old(flow).phase is Start && old(flow).archive is None && old(flow).new_title is Some ==> {
            &&& final(flow).phase is Renaming
            &&& old(flow).renames(action)
        },
        old(flow).phase is Start && old(flow).archive is None && old(flow).new_title is None ==> {
            &&& final(flow).phase is Finished
            &&& action matches Action::Respond(Err(ArticleError::Update(reason)))
                && reason@ == "No parameters given."@
        },
        old(flow).phase is RemovingOld && event is Failed ==> {
            &&& final(flow).phase is Finished
            &&& action matches Action::Respond(Err(ArticleError::Delete(reason)))
                && reason@ == "Failed to delete deprecated files!"@
        },
        old(flow).phase is RemovingOld && event is Succeeded ==> {
            &&& final(flow).phase is StoringArchive
            &&& action matches Action::StoreArchive { dir, file_name, data }
                && dir@ == old(flow).settings.archive_dir_of(old(flow).slug@)
                && file_name@ == old(flow).slug@
                && data@ == old(flow).archive->0@
        },
        old(flow).phase is StoringArchive && event is Failed ==> {
            &&& final(flow).phase is Finished
            &&& action matches Action::Respond(Err(ArticleError::Create(reason)))
                && reason@ == "Server issue"@
        },
        old(flow).phase is StoringArchive && event is Succeeded ==> {
            &&& final(flow).phase is ExtractingArchive
            &&& action matches Action::ExtractArchive { archive, dir }
                && dir@ == old(flow).settings.archive_dir_of(old(flow).slug@)
                && archive@ == old(flow).settings.archive_dir_of(old(flow).slug@) + "/"@
                + old(flow).slug@
        },
        old(flow).phase is ExtractingArchive && old(flow).new_title is Some ==> {
            &&& final(flow).phase is Renaming
            &&& old(flow).renames(action)
        },
        old(flow).phase is ExtractingArchive && old(flow).new_title is None ==> {
            &&& final(flow).phase is Updating
            &&& old(flow).records(action)
        },
        old(flow).phase is Renaming ==> {
            &&& final(flow).phase is Updating
            &&& old(flow).records(action)
        },
        old(flow).phase is Updating && event is Failed ==> {
            &&& final(flow).phase is Finished
            &&& action matches Action::Respond(Err(ArticleError::Update(reason)))
                && reason@ == "Failed to update article"@
        },
        old(flow).phase is Updating && event is Succeeded ==> {
            &&& final(flow).phase is Finished
            &&& action matches Action::Respond(Ok(r)) && is_updated_response(&r)
        },
{
    match flow.phase {
        UpdatePhase::Start => {
            if flow.archive.is_some() {
                flow.phase = UpdatePhase::RemovingOld;
                Action::RemoveDir { path: flow.settings.article_dir(flow.slug.as_str()) }
            } else if flow.new_title.is_some() {
                flow.phase = UpdatePhase::Renaming;
                flow.rename()
            } else {
                flow.phase = UpdatePhase::Finished;
                Action::Respond(Err(ArticleError::Update("No parameters given.".to_owned())))
            }
        },
        UpdatePhase::RemovingOld => {
            if let Event::Succeeded = event {
                let dir = flow.settings.archive_dir(flow.slug.as_str());
                let data = flow.archive.take().unwrap();
                flow.phase = UpdatePhase::StoringArchive;
                Action::StoreArchive { dir, file_name: flow.slug.clone(), data }
            } else {
                flow.phase = UpdatePhase::Finished;
                Action::Respond(
                    Err(ArticleError::Delete("Failed to delete deprecated files!".to_owned())),
                )
            }
        },
        UpdatePhase::StoringArchive => {
            if let Event::Succeeded = event {
                let dir = flow.settings.archive_dir(flow.slug.as_str());
                let archive = concat3(dir.as_str(), "/", flow.slug.as_str());
                flow.phase = UpdatePhase::ExtractingArchive;
                Action::ExtractArchive { archive, dir }
            } else {
                flow.phase = UpdatePhase::Finished;
                Action::Respond(Err(ArticleError::Create("Server issue".to_owned())))
            }
        },
        UpdatePhase::ExtractingArchive => {
            if flow.new_title.is_some() {
                flow.phase = UpdatePhase::Renaming;
                flow.rename()
            } else {
                flow.phase = UpdatePhase::Updating;
                flow.record()
            }
        },
        UpdatePhase::Renaming => {
            flow.phase = UpdatePhase::Updating;
            flow.record()
        },
        UpdatePhase::Updating => {
            flow.phase = UpdatePhase::Finished;
            if let Event::Succeeded = event {
                Action::Respond(
                    Ok(
                        UpdateArticleResponse {
                            status: "success".to_owned(),
                            message: Some("Updated!".to_owned()),
                            data: None,
                        },
                    ),
                )
            } else {
                Action::Respond(Err(ArticleError::Update("Failed to update article".to_owned())))
            }
        },
        UpdatePhase::Finished => vstd::pervasive::unreached(),
    }
}

} // verus!
