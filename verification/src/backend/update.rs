//! Updating an article in the JSON service.
use vstd::prelude::*;

use crate::backend::model::UpdateArticle;
use crate::backend::upload::{bytes_of, decode_base64, standard_base64_decoding};
use crate::backend::{is_status, Action, Event, Reply};
use crate::settings::Settings;
use crate::text::{slug_of, slugify};

verus! {

/// Where an update stands.
pub enum UpdatePhase {
    Start,
    RemovingOld,
    StoringArchive,
    ExtractingArchive,
    Renaming,
    Updating,
    Finished,
}

impl UpdatePhase {
    /// How far along the phase is; every step moves to a later phase.
    pub open spec fn rank(&self) -> nat {
        match self {
            UpdatePhase::Start => 0,
            UpdatePhase::RemovingOld => 1,
            UpdatePhase::StoringArchive => 2,
            UpdatePhase::ExtractingArchive => 3,
            UpdatePhase::Renaming => 4,
            UpdatePhase::Updating => 5,
            UpdatePhase::Finished => 6,
        }
    }
}

/// An update in progress: `title` and `new_title` are slugs already;
/// `has_archive` tells whether an archive was sent, and `archive` holds its
/// decoding (`None` when it could not be decoded).
pub struct UpdateFlow {
    pub settings: Settings,
    pub title: String,
    pub new_title: String,
    pub renamed: bool,
    pub has_archive: bool,
    pub archive: Option<Vec<u8>>,
    pub phase: UpdatePhase,
}

impl UpdateFlow {
    /// There is a decoded archive only if one was sent, and it is kept until
    /// it is stored.
    pub open spec fn wf(&self) -> bool {
        &&& !self.has_archive ==> self.archive is None
        &&& self.phase is RemovingOld ==> self.archive is Some
    }

    /// The events the update can take in its phase.
    pub open spec fn accepts(&self, event: &Event) -> bool {
        match self.phase {
            UpdatePhase::Start => *event is Begin,
            UpdatePhase::RemovingOld | UpdatePhase::ExtractingArchive | UpdatePhase::Updating => {
                *event is Succeeded || *event is Failed
            },
            UpdatePhase::StoringArchive | UpdatePhase::Renaming => *event is Succeeded,
            UpdatePhase::Finished => false,
        }
    }

    /// An update as the payload describes it: a sent archive is the decoding
    /// of its base64 text.
    pub fn new(settings: Settings, payload: UpdateArticle) -> (flow: UpdateFlow)
        ensures
            flow.wf(),
            flow.phase is Start,
            flow.settings == settings,
            flow.title@ == slug_of(payload.title@),
            flow.new_title@ == (match payload.new_title {
                Some(t) => slug_of(t@),
                None => slug_of(payload.title@),
            }),
            flow.renamed == payload.new_title is Some,
            flow.has_archive == payload.archive is Some,
            payload.archive matches Some(text) ==> bytes_of(flow.archive)
                == standard_base64_decoding(text@),
    {
        let upload = match &payload.archive {
            Some(text) => Some(decode_base64(text.as_slice())),
            None => None,
        };
        UpdateFlow::with_upload(settings, payload.title, payload.new_title, upload)
    }

    /// An update of the article titled `title` to `new_title`, where
    /// `upload` tells whether an archive was sent and what its base64 text
    /// decoded to (`Some(None)`: it could not be decoded).
    pub fn with_upload(
        settings: Settings,
        title: String,
        new_title: Option<String>,
        upload: Option<Option<Vec<u8>>>,
    ) -> (flow: UpdateFlow)
        ensures
            flow.wf(),
            flow.phase is Start,
            flow.settings == settings,
            flow.title@ == slug_of(title@),
            flow.new_title@ == (match new_title {
                Some(t) => slug_of(t@),
                None => slug_of(title@),
            }),
            flow.renamed == new_title is Some,
            flow.has_archive == upload is Some,
            upload matches Some(decoded) ==> flow.archive == decoded,
    {
        let slug = slugify(title.as_str());
        let renamed = new_title.is_some();
        let new_slug = match &new_title {
            Some(t) => slugify(t.as_str()),
            None => slug.clone(),
        };
        let has_archive = upload.is_some();
        let archive = match upload {
            Some(decoded) => decoded,
            None => None,
        };
        UpdateFlow {
            settings,
            title: slug,
            new_title: new_slug,
            renamed,
            has_archive,
            archive,
            phase: UpdatePhase::Start,
        }
    }

    /// `action` records the update under the new title.
    pub open spec fn records(&self, action: Action) -> bool {
        action matches Action::UpdateArticle { title, content, old_title }
            && title@ == self.new_title@
            && content@ == self.settings.markdown_url_of(self.new_title@)
            && old_title@ == self.title@
    }

    /// The request to record the update.
    fn record(&self) -> (action: Action)
        ensures
            self.records(action),
    {
        Action::UpdateArticle {
            title: self.new_title.clone(),
            content: self.settings.markdown_url(self.new_title.as_str()),
            old_title: self.title.clone(),
        }
    }
}

/// One step of updating an article.
///
/// A sent archive whose base64 text could not be decoded is refused before
/// anything is touched. A new archive first removes `{articles}/{title}` (refusing the update if
/// that fails), then is stored and unpacked under the new title; without an
/// archive, a new title renames `{articles}/{title}` to
/// `{articles}/{new title}`; with neither the update is refused. Last, the
/// article gets the new title and `{web articles}/{new title}/main.md`.
pub fn update_article(flow: &mut UpdateFlow, event: Event) -> (action: Action)
    requires
        old(flow).wf(),
        old(flow).accepts(&event),
    ensures
        action is Respond <==> final(flow).phase is Finished,
        final(flow).phase.rank() > old(flow).phase.rank(),
        final(flow).wf(),
        final(flow).settings == old(flow).settings,
        final(flow).title == old(flow).title,
        final(flow).new_title == old(flow).new_title,
        final(flow).renamed == old(flow).renamed,
        final(flow).has_archive == old(flow).has_archive,
        !(old(flow).phase is RemovingOld && event is Succeeded) ==> final(flow).archive
            == old(flow).archive,
        old(flow).phase is RemovingOld && event is Succeeded ==> final(flow).archive is None,
        old(flow).phase is Start && old(flow).has_archive && old(flow).archive is None ==> {
            &&& final(flow).phase is Finished
            &&& action matches Action::Respond(Err(reply))
                && is_status(reply, false, "Unable to upload non-gzip file!"@)
        },
        old(flow).phase is Start && old(flow).archive is Some ==> {
            &&& final(flow).phase is RemovingOld
            &&& action matches Action::RemoveDir { path }
                && path@ == old(flow).settings.article_dir_of(old(flow).title@)
        },
        old(flow).phase is Start && !old(flow).has_archive && old(flow).renamed ==> {
            &&& final(flow).phase is Renaming
            &&& action matches Action::RenameDir { from, to }
                && from@ == old(flow).settings.article_dir_of(old(flow).title@)
                && to@ == old(flow).settings.article_dir_of(old(flow).new_title@)
        },
        old(flow).phase is Start && !old(flow).has_archive && !old(flow).renamed ==> {
            &&& final(flow).phase is Finished
            &&& action matches Action::Respond(Err(reply)) && is_status(reply, false, "No parameters!"@)
        },
        old(flow).phase is RemovingOld && event is Failed ==> {
            &&& final(flow).phase is Finished
            &&& action matches Action::Respond(Err(reply)) && is_status(
                reply,
                false,
                "Unable to delete old files. Probably because there is no such article?"@,
            )
        },
        old(flow).phase is RemovingOld && event is Succeeded ==> {
            &&& final(flow).phase is StoringArchive
            &&& action matches Action::StoreArchive { dir, file_name, data }
                && dir@ == old(flow).settings.archive_dir_of(old(flow).new_title@)
                && file_name@ == old(flow).new_title@
                && data@ == old(flow).archive->0@
        },
        old(flow).phase is StoringArchive ==> {
            &&& final(flow).phase is ExtractingArchive
            &&& action matches Action::ExtractArchive { dir, file_name }
                && dir@ == old(flow).settings.archive_dir_of(old(flow).new_title@)
                && file_name@ == old(flow).new_title@
        },
        old(flow).phase is ExtractingArchive && event is Failed ==> {
            &&& final(flow).phase is Finished
            &&& action matches Action::Respond(Err(reply))
                && is_status(reply, false, "Unable to upload non-gzip file!"@)
        },
        old(flow).phase is ExtractingArchive && event is Succeeded ==> {
            &&& final(flow).phase is Updating
            &&& old(flow).records(action)
        },
        old(flow).phase is Renaming ==> {
            &&& final(flow).phase is Updating
            &&& old(flow).records(action)
        },
        old(flow).phase is Updating && event is Failed ==> {
            &&& final(flow).phase is Finished
            &&& action matches Action::Respond(Err(reply))
                && is_status(reply, false, "Failed to update article!"@)
        },
        old(flow).phase is Updating && event is Succeeded ==> {
            &&& final(flow).phase is Finished
            &&& action matches Action::Respond(Ok(reply)) && is_status(reply, true, "Updated!"@)
        },
{
    match flow.phase {
        UpdatePhase::Start => {
            if flow.has_archive && flow.archive.is_none() {
                flow.phase = UpdatePhase::Finished;
                Action::Respond(
                    Err(
                        Reply::Status {
                            success: false,
                            data: "Unable to upload non-gzip file!".to_owned(),
                        },
                    ),
                )
            } else if flow.archive.is_some() {
                flow.phase = UpdatePhase::RemovingOld;
                Action::RemoveDir { path: flow.settings.article_dir(flow.title.as_str()) }
            } else if flow.renamed {
                flow.phase = UpdatePhase::Renaming;
                Action::RenameDir {
                    from: flow.settings.article_dir(flow.title.as_str()),
                    to: flow.settings.article_dir(flow.new_title.as_str()),
                }
            } else {
                flow.phase = UpdatePhase::Finished;
                Action::Respond(
                    Err(Reply::Status { success: false, data: "No parameters!".to_owned() }),
                )
            }
        },
        UpdatePhase::RemovingOld => {
            if let Event::Succeeded = event {
                let dir = flow.settings.archive_dir(flow.new_title.as_str());
                let data = flow.archive.take().unwrap();
                flow.phase = UpdatePhase::StoringArchive;
                Action::StoreArchive { dir, file_name: flow.new_title.clone(), data }
            } else {
                flow.phase = UpdatePhase::Finished;
                Action::Respond(
                    Err(
                        Reply::Status {
                            success: false,
                            data: "Unable to delete old files. Probably because there is no such article?".to_owned(),
                        },
                    ),
                )
            }
        },
        UpdatePhase::StoringArchive => {
            let dir = flow.settings.archive_dir(flow.new_title.as_str());
            flow.phase = UpdatePhase::ExtractingArchive;
            Action::ExtractArchive { dir, file_name: flow.new_title.clone() }
        },
        UpdatePhase::ExtractingArchive => {
            if let Event::Succeeded = event {
                flow.phase = UpdatePhase::Updating;
                flow.record()
            } else {
                flow.phase = UpdatePhase::Finished;
                Action::Respond(
                    Err(
                        Reply::Status {
                            success: false,
                            data: "Unable to upload non-gzip file!".to_owned(),
                        },
                    ),
                )
            }
        },
        UpdatePhase::Renaming => {
            flow.phase = UpdatePhase::Updating;
            flow.record()
        },
        UpdatePhase::Updating => {
            flow.phase = UpdatePhase::Finished;
            if let Event::Succeeded = event {
                Action::Respond(Ok(Reply::Status { success: true, data: "Updated!".to_owned() }))
            } else {
                Action::Respond(
                    Err(
                        Reply::Status { success: false, data: "Failed to update article!".to_owned() },
                    ),
                )
            }
        },
        UpdatePhase::Finished => vstd::pervasive::unreached(),
    }
}

} // verus!
