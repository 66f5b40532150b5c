//! Creating an article in the JSON service: store and
//! unpack the archive, point the markdown's relative links at the published
//! address, and record the article under its slug.
use vstd::prelude::*;

use crate::backend::model::CreateArticle;
use crate::backend::upload::{bytes_of, decode_base64, standard_base64_decoding};
use crate::backend::{is_status, Action, Event, Reply};
use crate::settings::Settings;
use crate::text::{concat2, slug_of, slugify};

verus! {

/// Where a creation stands.
pub enum CreatePhase {
    Start,
    StoringArchive,
    ExtractingArchive,
    RewritingMarkdown,
    Inserting,
    Finished,
}

impl CreatePhase {
    /// How far along the phase is; every step moves to a later phase.
    pub open spec fn rank(&self) -> nat {
        match self {
            CreatePhase::Start => 0,
            CreatePhase::StoringArchive => 1,
            CreatePhase::ExtractingArchive => 2,
            CreatePhase::RewritingMarkdown => 3,
            CreatePhase::Inserting => 4,
            CreatePhase::Finished => 5,
        }
    }
}

/// A creation in progress.
pub struct CreateFlow {
    pub settings: Settings,
    pub slug: String,
    pub archive: Option<Vec<u8>>,
    pub phase: CreatePhase,
}

impl CreateFlow {
    /// The events the creation can take in its phase; an outside step the
    /// handler treats as infallible has no failure event.
    pub open spec fn accepts(&self, event: &Event) -> bool {
        match self.phase {
            CreatePhase::Start => *event is Begin,
            CreatePhase::StoringArchive | CreatePhase::RewritingMarkdown => *event is Succeeded,
            CreatePhase::ExtractingArchive | CreatePhase::Inserting => *event is Succeeded
                || *event is Failed,
            CreatePhase::Finished => false,
        }
    }

    /// A creation of the article the payload describes: its archive is the
    /// decoding of the payload's base64 text.
    pub fn new(settings: Settings, payload: CreateArticle) -> (flow: CreateFlow)
        ensures
            flow.phase is Start,
            flow.settings == settings,
            flow.slug@ == slug_of(payload.title@),
            bytes_of(flow.archive) == standard_base64_decoding(payload.archive@),
    {
        let archive = decode_base64(payload.archive.as_slice());
        CreateFlow::with_archive(settings, payload.title, archive)
    }

    /// A creation of the article titled `title` whose base64 archive decoded
    /// to `archive` (`None`: it could not be decoded).
    pub fn with_archive(settings: Settings, title: String, archive: Option<Vec<u8>>) -> (flow:
        CreateFlow)
        ensures
            flow.phase is Start,
            flow.settings == settings,
            flow.slug@ == slug_of(title@),
            flow.archive == archive,
    {
        let slug = slugify(title.as_str());
        CreateFlow { settings, slug, archive, phase: CreatePhase::Start }
    }
}

/// One step of creating an article.
///
/// An archive whose base64 text could not be decoded is refused before
/// anything is touched. The decoded archive is stored in `{articles}/{slug}/` under the name `{slug}` and
/// unpacked there; an archive that cannot be opened is refused. The markdown
/// `{articles}/{slug}/main.md` is rewritten for the address
/// `{web articles}/{slug}/`, and the article is recorded with the slug as its
/// title and `{web articles}/{slug}//main.md` as its content.
pub fn create_article(flow: &mut CreateFlow, event: Event) -> (action: Action)
    requires
        old(flow).accepts(&event),
    ensures
        action is Respond <==> final(flow).phase is Finished,
        final(flow).phase.rank() > old(flow).phase.rank(),
        final(flow).settings == old(flow).settings,
        final(flow).slug == old(flow).slug,
        !(old(flow).phase is Start) ==> final(flow).archive == old(flow).archive,
        old(flow).phase is Start ==> final(flow).archive is None,
        old(flow).phase is Start && old(flow).archive is None ==> {
            &&& final(flow).phase is Finished
            &&& action matches Action::Respond(Err(reply))
                && is_status(reply, false, "Unable to upload non-gzip file!"@)
        },
        old(flow).phase is Start && old(flow).archive is Some ==> {
            &&& final(flow).phase is StoringArchive
            &&& action matches Action::StoreArchive { dir, file_name, data }
                && dir@ == old(flow).settings.archive_dir_of(old(flow).slug@)
                && file_name@ == old(flow).slug@
                && data@ == old(flow).archive->0@
        },
        old(flow).phase is StoringArchive ==> {
            &&& final(flow).phase is ExtractingArchive
            &&& action matches Action::ExtractArchive { dir, file_name }
                && dir@ == old(flow).settings.archive_dir_of(old(flow).slug@)
                && file_name@ == old(flow).slug@
        },
        old(flow).phase is ExtractingArchive && event is Failed ==> {
            &&& final(flow).phase is Finished
            &&& action matches Action::Respond(Err(reply))
                && is_status(reply, false, "Unable to upload non-gzip file!"@)
        },
        old(flow).phase is ExtractingArchive && event is Succeeded ==> {
            &&& final(flow).phase is RewritingMarkdown
            &&& action matches Action::RewriteMarkdown { path, url }
                && path@ == old(flow).settings.markdown_path_of(old(flow).slug@)
                && url@ == old(flow).settings.article_folder_url_of(old(flow).slug@)
        },
        old(flow).phase is RewritingMarkdown ==> {
            &&& final(flow).phase is Inserting
            &&& action matches Action::InsertArticle { title, content }
                && title@ == old(flow).slug@
                && content@ == old(flow).settings.article_folder_url_of(old(flow).slug@) + "/main.md"@
        },
        old(flow).phase is Inserting && event is Failed ==> {
            &&& final(flow).phase is Finished
            &&& action matches Action::Respond(Err(reply)) && is_status(reply, false, "Database issue!"@)
        },
        old(flow).phase is Inserting && event is Succeeded ==> {
            &&& final(flow).phase is Finished
            &&& action matches Action::Respond(Ok(reply)) && is_status(reply, true, "Created!"@)
        },
{
    match flow.phase {
        CreatePhase::Start => {
            match flow.archive.take() {
                Some(data) => {
                    let dir = flow.settings.archive_dir(flow.slug.as_str());
                    flow.phase = CreatePhase::StoringArchive;
                    Action::StoreArchive { dir, file_name: flow.slug.clone(), data }
                },
                None => {
                    flow.phase = CreatePhase::Finished;
                    Action::Respond(
                        Err(
                            Reply::Status {
                                success: false,
                                data: "Unable to upload non-gzip file!".to_owned(),
                            },
                        ),
                    )
                },
            }
        },
        CreatePhase::StoringArchive => {
            let dir = flow.settings.archive_dir(flow.slug.as_str());
            flow.phase = CreatePhase::ExtractingArchive;
            Action::ExtractArchive { dir, file_name: flow.slug.clone() }
        },
        CreatePhase::ExtractingArchive => {
            if let Event::Succeeded = event {
                let path = flow.settings.markdown_path(flow.slug.as_str());
                let url = flow.settings.article_folder_url(flow.slug.as_str());
                flow.phase = CreatePhase::RewritingMarkdown;
                Action::RewriteMarkdown { path, url }
            } else {
                flow.phase = CreatePhase::Finished;
                Action::Respond(
                    Err(
                        Reply::Status {
                            success: false,
                            data: "Unable to upload non-gzip file!".to_owned(),
                        },
                    ),
                )
            }
        },
        CreatePhase::RewritingMarkdown => {
            let url = flow.settings.article_folder_url(flow.slug.as_str());
            let content = concat2(url.as_str(), "/main.md");
            flow.phase = CreatePhase::Inserting;
            Action::InsertArticle { title: flow.slug.clone(), content }
        },
        CreatePhase::Inserting => {
            flow.phase = CreatePhase::Finished;
            if let Event::Succeeded = event {
                Action::Respond(Ok(Reply::Status { success: true, data: "Created!".to_owned() }))
            } else {
                Action::Respond(
                    Err(Reply::Status { success: false, data: "Database issue!".to_owned() }),
                )
            }
        },
        CreatePhase::Finished => vstd::pervasive::unreached(),
    }
}

} // verus!
