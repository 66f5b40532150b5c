//! Creating an article: refuse a title whose slug is taken, store and unpack
//! the uploaded archive, point the markdown's relative links at the published
//! address, and record the article.
use vstd::prelude::*;

use crate::error::ArticleError;
use crate::handler::{Action, Event};
use crate::model::CreateArticleRequest;
use crate::response::CreateArticleResponse;
use crate::settings::Settings;
use crate::text::{concat3, slug_of, slugify};

verus! {

/// Where a creation stands: which outside step it waits for.
pub enum CreatePhase {
    Start,
    CheckingExisting,
    StoringArchive,
    ExtractingArchive,
    RewritingMarkdown,
    Inserting,
    Finished,
}

impl CreatePhase {
    /// How far along the phase is; every step moves to a later phase.
    pub open spec fn rank(&self) -> nat {
        match self {
            CreatePhase::Start => 0,
            CreatePhase::CheckingExisting => 1,
            CreatePhase::StoringArchive => 2,
            CreatePhase::ExtractingArchive => 3,
            CreatePhase::RewritingMarkdown => 4,
            CreatePhase::Inserting => 5,
            CreatePhase::Finished => 6,
        }
    }
}

/// A creation in progress.
pub struct CreateFlow {
    pub settings: Settings,
    pub title: String,
    pub slug: String,
    pub archive: Option<Vec<u8>>,
    pub phase: CreatePhase,
}

impl CreateFlow {
    /// The slug is the title's, and the archive is kept until it is stored.
    pub open spec fn wf(&self) -> bool {
        &&& self.slug@ == slug_of(self.title@)
        &&& (self.phase is Start || self.phase is CheckingExisting) ==> self.archive is Some
    }

    /// The events the creation can take in its phase; an outside step the
    /// handler treats as infallible has no failure event.
    pub open spec fn accepts(&self, event: &Event) -> bool {
        match self.phase {
            CreatePhase::Start => *event is Begin,
            CreatePhase::CheckingExisting | CreatePhase::StoringArchive | CreatePhase::Inserting => {
                *event is Succeeded || *event is Failed
            },
            CreatePhase::ExtractingArchive | CreatePhase::RewritingMarkdown => *event is Succeeded,
            CreatePhase::Finished => false,
        }
    }

    /// A creation of the article the request describes.
    pub fn new(settings: Settings, request: CreateArticleRequest) -> (flow: CreateFlow)
        ensures
            flow.wf(),
            flow.phase is Start,
            flow.settings == settings,
            flow.title@ == request.title@,
            flow.archive == Some(request.archive),
    {
        let slug = slugify(request.title.as_str());
        CreateFlow {
            settings,
            title: request.title,
            slug,
            archive: Some(request.archive),
            phase: CreatePhase::Start,
        }
    }
}

/// The answer to a successful creation.
pub open spec fn is_created_response(r: &CreateArticleResponse) -> bool {
    &&& r.status@ == "success"@
    &&& r.message matches Some(m) && m@ == "created"@
    &&& r.data is None
}

/// One step of creating an article: takes the outcome of the last outside
/// step and gives the next one.
///
/// On arrival it looks the slug up; if an article has it, the creation is
/// refused. Otherwise it stores the archive in `{articles}/{slug}/` under the
/// name `{slug}`, unpacks it there, rewrites `{articles}/{slug}/main.md` for
/// the address `{web articles}/{slug}/`, and records the title, the slug and
/// `{web articles}/{slug}/main.md`. A failure to store the archive or to
/// record the article ends the creation with an error.
pub fn create_article(flow: &mut CreateFlow, event: Event) -> (action: Action<
    CreateArticleResponse,
>)
    requires
        old(flow).wf(),
        old(flow).accepts(&event),
    ensures
        action is Respond <==> final(flow).phase is Finished,
        final(flow).phase.rank() > old(flow).phase.rank(),
        final(flow).wf(),
        final(flow).settings == old(flow).settings,
        final(flow).title == old(flow).title,
        final(flow).slug == old(flow).slug,
        !(old(flow).phase is CheckingExisting && event is Failed) ==> final(flow).archive
            == old(flow).archive,
        old(flow).phase is CheckingExisting && event is Failed ==> final(flow).archive is None,
        old(flow).phase is Start ==> {
            &&& final(flow).phase is CheckingExisting
            &&& action matches Action::FindArticle { slug } && slug@ == old(flow).slug@
        },
        old(flow).phase is CheckingExisting && event is Succeeded ==> {
            &&& final(flow).phase is Finished
            &&& action matches Action::Respond(Err(ArticleError::Create(reason)))
                && reason@ == "Article already exist!"@
        },
        old(flow).phase is CheckingExisting && event is Failed ==> {
            &&& final(flow).phase is StoringArchive
            &&& action matches Action::StoreArchive { dir, file_name, data }
                && dir@ == old(flow).settings.archive_dir_of(old(flow).slug@)
                && file_name@ == old(flow).slug@
                && data@ == old(flow).archive->0@
        },
        old(flow).phase is StoringArchive && event is Failed ==> {
            &&& final(flow).phase is Finished
            &&& action matches Action::Respond(Err(ArticleError::Create(reason)))
                && reason@ == "Server issue"@
        },
        old(flow).phase is StoringArchive && event is Succeeded ==> {
            &&& final(flow).phase is ExtractingArchive
            &&& action matches Action::ExtractArchive { archive, dir }
                && dir@ == old(flow).settings.archive_dir_of(old(flow).slug@)
                && archive@ == old(flow).settings.archive_dir_of(old(flow).slug@) + "/"@
                + old(flow).slug@
        },
        old(flow).phase is ExtractingArchive ==> {
            &&& final(flow).phase is RewritingMarkdown
            &&& action matches Action::RewriteMarkdown { path, url }
                && path@ == old(flow).settings.markdown_path_of(old(flow).slug@)
                && url@ == old(flow).settings.article_folder_url_of(old(flow).slug@)
        },
        old(flow).phase is RewritingMarkdown ==> {
            &&& final(flow).phase is Inserting
            &&& action matches Action::InsertArticle { title, slug, content }
                && title@ == old(flow).title@
                && slug@ == old(flow).slug@
                && content@ == old(flow).settings.markdown_url_of(old(flow).slug@)
        },
        old(flow).phase is Inserting && event is Failed ==> {
            &&& final(flow).phase is Finished
            &&& action matches Action::Respond(Err(ArticleError::Create(reason)))
                && reason@ == "Database error"@
        },
        old(flow).phase is Inserting && event is Succeeded ==> {
            &&& final(flow).phase is Finished
            &&& action matches Action::Respond(Ok(r)) && is_created_response(&r)
        },
{
    match flow.phase {
        CreatePhase::Start => {
            flow.phase = CreatePhase::CheckingExisting;
            Action::FindArticle { slug: flow.slug.clone() }
        },
        CreatePhase::CheckingExisting => {
            if let Event::Succeeded = event {
                flow.phase = CreatePhase::Finished;
                Action::Respond(Err(ArticleError::Create("Article already exist!".to_owned())))
            } else {
                let dir = flow.settings.archive_dir(flow.slug.as_str());
                let data = flow.archive.take().unwrap();
                flow.phase = CreatePhase::StoringArchive;
                Action::StoreArchive { dir, file_name: flow.slug.clone(), data }
            }
        },
        CreatePhase::StoringArchive => {
            if let Event::Succeeded = event {
                let dir = flow.settings.archive_dir(flow.slug.as_str());
                let archive = concat3(dir.as_str(), "/", flow.slug.as_str());
                flow.phase = CreatePhase::ExtractingArchive;
                Action::ExtractArchive { archive, dir }
            } else {
                flow.phase = CreatePhase::Finished;
                Action::Respond(Err(ArticleError::Create("Server issue".to_owned())))
            }
        },
        CreatePhase::ExtractingArchive => {
            let path = flow.settings.markdown_path(flow.slug.as_str());
            let url = flow.settings.article_folder_url(flow.slug.as_str());
            flow.phase = CreatePhase::RewritingMarkdown;
            Action::RewriteMarkdown { path, url }
        },
        CreatePhase::RewritingMarkdown => {
            let content = flow.settings.markdown_url(flow.slug.as_str());
            flow.phase = CreatePhase::Inserting;
            Action::InsertArticle { title: flow.title.clone(), slug: flow.slug.clone(), content }
        },
        CreatePhase::Inserting => {
            flow.phase = CreatePhase::Finished;
            if let Event::Succeeded = event {
                Action::Respond(
                    Ok(
                        CreateArticleResponse {
                            status: "success".to_owned(),
                            message: Some("created".to_owned()),
                            data: None,
                        },
                    ),
                )
            } else {
                Action::Respond(Err(ArticleError::Create("Database error".to_owned())))
            }
        },
        CreatePhase::Finished => vstd::pervasive::unreached(),
    }
}

} // verus!
