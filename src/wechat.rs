//! Publishing one article: the decisions of the pipeline, as a state machine
//! that asks its driver for each outside step and is told how it went.

use vstd::prelude::*;

use crate::error::Error;
use crate::frontmatter::{published_spec, Frontmatter, FrontmatterModel};
use crate::paths::{article_file_stem, article_stem, resolve_cover_path, resolved_cover};
use crate::providers::{cover_name_spec, is_lower_hex, new_cover_file_name};

verus! {

/// Where a cover is to be generated.
#[derive(Debug, PartialEq)]
pub enum CoverTarget {
    /// A new cover, `file_name`, saved at `path` next to the article.
    New { file_name: String, path: String },
    /// The declared cover, missing on disk, generated at its resolved path.
    Declared { path: String },
}

/// How a run ended.
#[derive(Debug, PartialEq)]
pub enum Outcome {
    /// The article was already published and was left alone.
    Skipped,
    /// The article was uploaded; the platform returned `draft_id`.
    Published { draft_id: String },
    /// The run stopped on `error`.
    Failed { error: Error },
}

/// Something the operator should hear about.
#[derive(Debug, PartialEq)]
pub enum Notice {
    /// The declared cover is missing and no AI provider can make it.
    CoverMissingNoProvider { cover: String },
    /// A cover was generated and recorded.
    CoverGenerated { cover: String },
    /// Cover generation failed; publication goes on, and a declared cover
    /// stays recorded in the metadata so that a cover placed by hand later
    /// is picked up.
    CoverFailed,
}

/// What the driver must do next.
#[derive(Debug, PartialEq)]
pub enum Action {
    /// Read and parse the article at `path`; answer with `Event::Loaded`.
    ReadArticle { path: String },
    /// Tell whether a file exists at `path`; answer with `Event::CoverExists`.
    CheckCover { path: String },
    /// Generate a cover from `content`; answer with `Event::CoverGenerated`.
    GenerateCover { content: String, target: CoverTarget },
    /// Write the article; answer with `Event::Written`.
    WriteArticle { path: String, frontmatter: Frontmatter, body: String },
    /// Upload the article at `path`; answer with `Event::Uploaded`.
    Upload { path: String },
    /// Nothing more to do.
    Finish { outcome: Outcome },
}

/// What the driver reports back.
#[derive(Debug)]
pub enum Event {
    Loaded { result: Result<(Frontmatter, String), Error> },
    CoverExists { exists: bool },
    CoverGenerated { ok: bool },
    Written { result: Result<(), Error> },
    Uploaded { result: Result<String, Error> },
}

/// Where the run stands.
#[derive(Debug)]
pub enum Stage {
    /// Waiting for the article.
    Unchecked,
    /// Waiting to learn whether the declared cover exists.
    CoverCheck { frontmatter: Frontmatter, body: String, cover: String },
    /// Waiting for cover generation; `cover` is the reference to record.
    CoverPending { frontmatter: Frontmatter, body: String, cover: String },
    /// Waiting for the article with its new cover to be written.
    CoverSaving,
    /// Waiting for the upload.
    Uploading,
    /// Waiting to re-read the article after the upload.
    Marking { draft_id: String },
    /// Waiting for the article with its draft status to be written.
    MarkSaving { draft_id: String },
    /// Finished.
    Done,
}

/// The run of the publication pipeline on one article.
#[derive(Debug)]
pub struct Publication {
    pub path: String,
    /// Publish even when the article is already published.
    pub force: bool,
    /// Whether an AI provider can generate covers.
    pub ai_configured: bool,
    pub stage: Stage,
}

/// One step: the next action, and a notice for the operator if any.
#[derive(Debug)]
pub struct Step {
    pub action: Action,
    pub notice: Option<Notice>,
}

/// The article is to be skipped: not forced, and already published.
pub open spec fn skips(force: bool, m: FrontmatterModel) -> bool {
    !force && published_spec(m)
}

/// The status an upload leaves: the article's metadata with `published`
/// set to `draft`, everything else as read back.
pub open spec fn marked_draft(m: FrontmatterModel) -> FrontmatterModel {
    FrontmatterModel { published: Some("draft"@), ..m }
}

pub open spec fn opt_str(o: Option<String>) -> Option<Seq<char>> {
    match o {
        Some(s) => Some(s@),
        None => None,
    }
}


/// The run goes on with the same article and settings.
pub open spec fn same_run(a: Publication, b: Publication) -> bool {
    b.path == a.path && b.force == a.force && b.ai_configured == a.ai_configured
}

/// The step ends the run with `outcome`.
pub open spec fn ends_with(p: Publication, r: Step, outcome: Outcome) -> bool {
    p.stage is Done && r.action == (Action::Finish { outcome }) && r.notice is None
}

/// The step ends the run with a failure.
pub open spec fn ends_failed(p: Publication, r: Step) -> bool {
    p.stage is Done && r.action matches Action::Finish { outcome: Outcome::Failed { .. } }
}

/// The step asks for the upload of the article at `path`.
pub open spec fn goes_upload(p: Publication, r: Step, path: String) -> bool {
    r.action matches Action::Upload { path: q } && q == path && p.stage is Uploading
}

/// The step asks for a cover generated from `body`, to be recorded as a
/// reference whose view is `cover`, at `target`'s path.
pub open spec fn goes_generate(
    p: Publication,
    r: Step,
    fm: Frontmatter,
    body: String,
    new_cover: bool,
    cover: Seq<char>,
    target: Seq<char>,
) -> bool {
    &&& p.stage matches Stage::CoverPending { frontmatter: f, body: b, cover: c } && f == fm && b
        == body && c@ == cover
    &&& r.action matches Action::GenerateCover { content, target: t } && content == body && (
    if new_cover {
        t matches CoverTarget::New { file_name, path } && file_name@ == cover && path@ == target
    } else {
        t matches CoverTarget::Declared { path } && path@ == target
    })
    &&& r.notice is None
}

/// The step after the article `fm`, `body` has been read for the first time.
pub open spec fn after_load(
    old: Publication,
    new: Publication,
    r: Step,
    fm: Frontmatter,
    body: String,
) -> bool {
    if skips(old.force, fm@) {
        ends_with(new, r, Outcome::Skipped)
    } else {
        match fm.cover {
            Some(c) => r.action matches Action::CheckCover { path } && path@ == resolved_cover(
                old.path@,
                c@,
            ) && new.stage == (Stage::CoverCheck { frontmatter: fm, body, cover: c })
                && r.notice is None,
            None => if old.ai_configured {
                exists|suffix: Seq<char>|
                    suffix.len() == 32 && (forall|i: int|
                        0 <= i < 32 ==> is_lower_hex(#[trigger] suffix[i])) && {
                        let name = cover_name_spec(article_stem(old.path@), suffix);
                        goes_generate(
                            new,
                            r,
                            fm,
                            body,
                            true,
                            name,
                            resolved_cover(old.path@, name),
                        )
                    }
            } else {
                goes_upload(new, r, old.path) && r.notice is None
            },
        }
    }
}

/// How the run moves on `ev` from `old` to `new`, producing `r`.
pub open spec fn transition(old: Publication, ev: Event, new: Publication, r: Step) -> bool {
    &&& same_run(old, new)
    &&& match (old.stage, ev) {
        (Stage::Unchecked, Event::Loaded { result }) => match result {
            Err(e) => ends_with(new, r, Outcome::Failed { error: e }),
            Ok((fm, body)) => after_load(old, new, r, fm, body),
        },
        (Stage::CoverCheck { frontmatter, body, cover }, Event::CoverExists { exists }) => if exists {
            goes_upload(new, r, old.path) && r.notice is None
        } else if old.ai_configured {
            let c = cover@;
            goes_generate(
                new,
                r,
                frontmatter,
                body,
                false,
                c,
                resolved_cover(old.path@, c),
            )
        } else {
            r.notice matches Some(Notice::CoverMissingNoProvider { cover: c }) && c == cover
                && goes_upload(new, r, old.path)
        },
        (Stage::CoverPending { frontmatter, body, cover }, Event::CoverGenerated { ok }) => if ok {
            &&& new.stage is CoverSaving
            &&& r.action matches Action::WriteArticle { path, frontmatter: f, body: b } && path
                == old.path && f@ == (FrontmatterModel { cover: Some(cover@), ..frontmatter@ })
                && b == body
            &&& r.notice matches Some(Notice::CoverGenerated { cover: c }) && c@ == cover@
        } else {
            goes_upload(new, r, old.path) && r.notice == Some(Notice::CoverFailed)
        },
        (Stage::CoverSaving, Event::Written { result }) => match result {
            Ok(()) => goes_upload(new, r, old.path) && r.notice is None,
            Err(e) => ends_with(new, r, Outcome::Failed { error: e }),
        },
        (Stage::Uploading, Event::Uploaded { result }) => match result {
            Ok(id) => r.action matches Action::ReadArticle { path } && path == old.path
                && new.stage == (Stage::Marking { draft_id: id }) && r.notice is None,
            Err(e) => ends_with(new, r, Outcome::Failed { error: e }),
        },
        (Stage::Marking { draft_id }, Event::Loaded { result }) => match result {
            Ok((fm, body)) => r.action matches Action::WriteArticle { path, frontmatter: f, body: b }
                && path == old.path && f@ == marked_draft(fm@) && b == body && new.stage == (
            Stage::MarkSaving { draft_id }) && r.notice is None,
            Err(e) => ends_with(new, r, Outcome::Failed { error: e }),
        },
        (Stage::MarkSaving { draft_id }, Event::Written { result }) => match result {
            Ok(()) => ends_with(new, r, Outcome::Published { draft_id }),
            Err(e) => ends_with(new, r, Outcome::Failed { error: e }),
        },
        _ => ends_failed(new, r),
    }
}

/// A forced run is never skipped: once the article is read, whatever its
/// status (a draft included), the run moves towards the upload, checking or
/// generating a cover first or uploading at once.
pub proof fn lemma_forced_run_goes_on(old: Publication, ev: Event, new: Publication, r: Step)
    requires
        old.force,
        old.stage is Unchecked,
        ev matches Event::Loaded { result: Ok(_) },
        transition(old, ev, new, r),
    ensures
        r.action is Upload || r.action is CheckCover || r.action is GenerateCover,
{
}

/// After a successful upload the article is re-read and written back with
/// the status `draft`, its body and every other field as read.
pub proof fn lemma_upload_marks_draft(old: Publication, ev: Event, new: Publication, r: Step)
    requires
        old.stage is Marking,
        ev matches Event::Loaded { result: Ok(_) },
        transition(old, ev, new, r),
    ensures
        ({
            let (fm, body) = ev->Loaded_result->Ok_0;
            r.action matches Action::WriteArticle { path, frontmatter: f, body: b } && path
                == old.path && f@.published == Some("draft"@) && f@ == marked_draft(fm@) && b
                == body
        }),
{
}

impl Publication {
    /// A run on one article; `force` publishes even a published article.
    pub fn start(path: String, force: bool, ai_configured: bool) -> (r: (Self, Action))
        ensures
            r.0.path == path,
            r.0.force == force,
            r.0.ai_configured == ai_configured,
            r.0.stage is Unchecked,
            r.1 matches Action::ReadArticle { path: p } && p == path,
    {
        let p = path.clone();
        (Publication { path, force, ai_configured, stage: Stage::Unchecked }, Action::ReadArticle { path: p })
    }

    /// A run on an article named directly: it is always published.
    pub fn for_file(path: String, ai_configured: bool) -> (r: (Self, Action))
        ensures
            r.0.path == path,
            r.0.force,
            r.0.ai_configured == ai_configured,
            r.0.stage is Unchecked,
            r.1 matches Action::ReadArticle { path: p } && p == path,
    {
        Publication::start(path, true, ai_configured)
    }

    /// A run on an article found in a directory: a published one is skipped.
    pub fn for_directory_entry(path: String, ai_configured: bool) -> (r: (Self, Action))
        ensures
            r.0.path == path,
            !r.0.force,
            r.0.ai_configured == ai_configured,
            r.0.stage is Unchecked,
            r.1 matches Action::ReadArticle { path: p } && p == path,
    {
        Publication::start(path, false, ai_configured)
    }

    fn finish(&mut self, outcome: Outcome) -> (r: Step)
        ensures
            final(self).stage is Done,
            final(self).path == old(self).path,
            final(self).force == old(self).force,
            final(self).ai_configured == old(self).ai_configured,
            r.action == (Action::Finish { outcome }),
            r.notice is None,
    {
        self.stage = Stage::Done;
        Step { action: Action::Finish { outcome }, notice: None }
    }

    fn upload(&mut self) -> (r: Step)
        ensures
            final(self).stage is Uploading,
            final(self).path == old(self).path,
            final(self).force == old(self).force,
            final(self).ai_configured == old(self).ai_configured,
            r.action matches Action::Upload { path } && path == old(self).path,
            r.notice is None,
    {
        self.stage = Stage::Uploading;
        Step { action: Action::Upload { path: self.path.clone() }, notice: None }
    }

    /// Moves the run on by what the driver reports.
    pub fn step(&mut self, event: Event) -> (r: Step)
        ensures
            transition(*old(self), event, *final(self), r),
    {
        let mut stage = Stage::Done;
        std::mem::swap(&mut stage, &mut self.stage);
        match (stage, event) {
            (Stage::Unchecked, Event::Loaded { result }) => match result {
                Err(e) => self.finish(Outcome::Failed { error: e }),
                Ok((fm, body)) => self.on_loaded(fm, body),
            },
            (Stage::CoverCheck { frontmatter, body, cover }, Event::CoverExists { exists }) => {
                if exists {
                    self.upload()
                } else if self.ai_configured {
                    let target = resolve_cover_path(self.path.as_str(), cover.as_str());
                    let content = body.clone();
                    self.stage = Stage::CoverPending { frontmatter, body, cover };
                    Step {
                        action: Action::GenerateCover {
                            content,
                            target: CoverTarget::Declared { path: target },
                        },
                        notice: None,
                    }
                } else {
                    let s = self.upload();
                    Step {
                        action: s.action,
                        notice: Some(Notice::CoverMissingNoProvider { cover }),
                    }
                }
            },
            (Stage::CoverPending { frontmatter, body, cover }, Event::CoverGenerated { ok }) => {
                if ok {
                    let mut fm = frontmatter;
                    let note = cover.clone();
                    fm.cover = Some(cover);
                    self.stage = Stage::CoverSaving;
                    Step {
                        action: Action::WriteArticle { path: self.path.clone(), frontmatter: fm, body },
                        notice: Some(Notice::CoverGenerated { cover: note }),
                    }
                } else {
                    let s = self.upload();
                    Step { action: s.action, notice: Some(Notice::CoverFailed) }
                }
            },
            (Stage::CoverSaving, Event::Written { result }) => match result {
                Ok(()) => self.upload(),
                Err(e) => self.finish(Outcome::Failed { error: e }),
            },
            (Stage::Uploading, Event::Uploaded { result }) => match result {
                Ok(id) => {
                    self.stage = Stage::Marking { draft_id: id };
                    Step { action: Action::ReadArticle { path: self.path.clone() }, notice: None }
                },
                Err(e) => self.finish(Outcome::Failed { error: e }),
            },
            (Stage::Marking { draft_id }, Event::Loaded { result }) => match result {
                Ok((fm, body)) => {
                    let mut fm = fm;
                    fm.set_published("draft");
                    self.stage = Stage::MarkSaving { draft_id };
                    Step {
                        action: Action::WriteArticle { path: self.path.clone(), frontmatter: fm, body },
                        notice: None,
                    }
                },
                Err(e) => self.finish(Outcome::Failed { error: e }),
            },
            (Stage::MarkSaving { draft_id }, Event::Written { result }) => match result {
                Ok(()) => self.finish(Outcome::Published { draft_id }),
                Err(e) => self.finish(Outcome::Failed { error: e }),
            },
            _ => self.finish(
                Outcome::Failed {
                    error: Error::Generic {
                        message: String::from_str("event does not fit the stage of the run"),
                    },
                },
            ),
        }
    }

    fn on_loaded(&mut self, fm: Frontmatter, body: String) -> (r: Step)
        ensures
            after_load(*old(self), *final(self), r, fm, body),
            same_run(*old(self), *final(self)),
    {
        if !self.force && fm.is_published() {
            return self.finish(Outcome::Skipped);
        }
        match &fm.cover {
            Some(c) => {
                let target = resolve_cover_path(self.path.as_str(), c.as_str());
                let cover = c.clone();
                self.stage = Stage::CoverCheck { frontmatter: fm, body, cover };
                Step { action: Action::CheckCover { path: target }, notice: None }
            },
            None => {
                if self.ai_configured {
                    let stem = article_file_stem(self.path.as_str());
                    let name = new_cover_file_name(stem.as_str());
                    let target = resolve_cover_path(self.path.as_str(), name.as_str());
                    let content = body.clone();
                    let file_name = name.clone();
                    self.stage = Stage::CoverPending { frontmatter: fm, body, cover: name };
                    Step {
                        action: Action::GenerateCover {
                            content,
                            target: CoverTarget::New { file_name, path: target },
                        },
                        notice: None,
                    }
                } else {
                    self.upload()
                }
            },
        }
    }

}

} // verus!
