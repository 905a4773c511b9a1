//! Generating one cover image: describe the article's scene, draw it, fetch
//! or decode the picture and save it; a state machine whose driver performs
//! each exchange with the backend and reports its result.

use vstd::prelude::*;

use crate::error::Error;
use crate::providers::{
    base64_decoded, decode_inline_image, image_from_response, image_is, image_pointers,
    image_request_spec, image_spec, json_has, json_text_at, prompt_spec, request_view,
    scene_pointer, scene_spec, ApiRequest, ImageRef, UniversalAIClient,
};

verus! {

/// Where cover generation stands.
#[derive(Debug)]
pub enum CoverStage {
    /// Waiting for the scene description.
    Describing,
    /// Waiting for the image; `prompt` is what was asked for.
    Drawing { prompt: String },
    /// Waiting for the image behind a URL.
    Fetching,
    /// Waiting for the image to be saved.
    Saving,
    /// Finished.
    Done,
}

/// What the driver must do next.
#[derive(Debug, PartialEq)]
pub enum CoverAction {
    /// Send `request`; answer with `CoverEvent::Answered` or `Unreachable`.
    Send { request: ApiRequest },
    /// Download `url`; answer with `CoverEvent::Fetched` or `Unreachable`.
    Fetch { url: String },
    /// Write `bytes` at `path`, creating missing directories; answer with
    /// `CoverEvent::Saved`.
    Save { path: String, bytes: Vec<u8> },
    /// Nothing more to do.
    Finish { result: Result<(), Error> },
}

/// What the driver reports back.
#[derive(Debug)]
pub enum CoverEvent {
    /// The backend answered with `status` and `body`.
    Answered { status: u16, body: String },
    /// The download answered with `status` and `bytes`.
    Fetched { status: u16, bytes: Vec<u8> },
    /// No answer could be had.
    Unreachable { error: Error },
    /// The image was written, or not.
    Saved { result: Result<(), Error> },
}

/// Generation of one cover image at `target`.
#[derive(Debug)]
pub struct CoverJob {
    pub client: UniversalAIClient,
    pub target: String,
    pub stage: CoverStage,
}

/// A status that reports success.
pub open spec fn success(status: u16) -> bool {
    200 <= status && status < 300
}

/// The job goes on with the same backend and target.
pub open spec fn same_job(a: CoverJob, b: CoverJob) -> bool {
    b.client == a.client && b.target == a.target
}

/// The step ends the job with `result`.
pub open spec fn job_ends(j: CoverJob, r: CoverAction, result: Result<(), Error>) -> bool {
    j.stage is Done && r == (CoverAction::Finish { result })
}

/// The step ends the job with a failure.
pub open spec fn job_fails(j: CoverJob, r: CoverAction) -> bool {
    r matches CoverAction::Finish { result: Err(_) } && j.stage is Done
}

/// The step ends the job with the backend's error, which carries its name,
/// `status` and `body`.
pub open spec fn job_refused(
    old: CoverJob,
    j: CoverJob,
    r: CoverAction,
    status: u16,
    body: Seq<char>,
) -> bool {
    r matches CoverAction::Finish {
        result: Err(Error::Provider { provider, status: s, body: b }),
    } && provider@ == old.client.config.name_spec() && s == status && b@ == body && j.stage is Done
}

/// The step saves `bytes` (whose view is `b`) at the target.
pub open spec fn job_saves(old: CoverJob, j: CoverJob, r: CoverAction, b: Seq<u8>) -> bool {
    r matches CoverAction::Save { path, bytes } && path == old.target && bytes@ == b
        && j.stage is Saving
}

/// What the job does with an image answer `body`.
pub open spec fn after_image(old: CoverJob, j: CoverJob, r: CoverAction, body: Seq<char>) -> bool {
    let p = old.client.config;
    let (ptr0, ptr1, ptr2) = image_pointers(p);
    match image_spec(
        p,
        json_has(body, ptr0),
        json_text_at(body, ptr1),
        json_text_at(body, ptr2),
    ) {
        None => job_fails(j, r),
        Some((is_url, x)) => if is_url {
            r matches CoverAction::Fetch { url } && url@ == x && j.stage is Fetching
        } else {
            match base64_decoded(x) {
                Some(b) => job_saves(old, j, r, b),
                None => job_fails(j, r),
            }
        },
    }
}

/// How the job moves on `ev` from `old` to `new`, producing `r`.
pub open spec fn cover_transition(old: CoverJob, ev: CoverEvent, new: CoverJob, r: CoverAction) -> bool {
    &&& same_job(old, new)
    &&& match (old.stage, ev) {
        (CoverStage::Describing, CoverEvent::Answered { status, body }) => if success(status) {
            let prompt = prompt_spec(
                scene_spec(json_text_at(body@, scene_pointer(old.client.config))),
            );
            &&& new.stage matches CoverStage::Drawing { prompt: q } && q@ == prompt
            &&& r matches CoverAction::Send { request } && request_view(request)
                == image_request_spec(old.client.config, old.client.model_config, prompt)
        } else {
            job_refused(old, new, r, status, body@)
        },
        (CoverStage::Drawing { .. }, CoverEvent::Answered { status, body }) => if success(status) {
            after_image(old, new, r, body@)
        } else {
            job_refused(old, new, r, status, body@)
        },
        (CoverStage::Fetching, CoverEvent::Fetched { status, bytes }) => if success(status) {
            job_saves(old, new, r, bytes@)
        } else {
            job_refused(old, new, r, status, Seq::empty())
        },
        (CoverStage::Saving, CoverEvent::Saved { result }) => job_ends(new, r, result),
        (CoverStage::Describing, CoverEvent::Unreachable { error }) => job_ends(new, r, Err(error)),
        (CoverStage::Drawing { .. }, CoverEvent::Unreachable { error }) => job_ends(
            new,
            r,
            Err(error),
        ),
        (CoverStage::Fetching, CoverEvent::Unreachable { error }) => job_ends(new, r, Err(error)),
        _ => job_fails(new, r),
    }
}

impl CoverJob {
    /// Starts generating a cover for an article's `content`, to be saved at
    /// `target`: the first step asks for a scene description.
    pub fn start(client: UniversalAIClient, content: &str, target: String) -> (r: (Self, CoverAction))
        ensures
            r.0.client == client,
            r.0.target == target,
            r.0.stage is Describing,
            r.1 matches CoverAction::Send { request } && request_view(request)
                == crate::providers::scene_request_spec(client.config, client.model_config, content@),
    {
        let request = client.scene_request(content);
        (CoverJob { client, target, stage: CoverStage::Describing }, CoverAction::Send { request })
    }

    fn end(&mut self, result: Result<(), Error>) -> (r: CoverAction)
        ensures
            same_job(*old(self), *final(self)),
            job_ends(*final(self), r, result),
    {
        self.stage = CoverStage::Done;
        CoverAction::Finish { result }
    }

    fn refused(&mut self, status: u16, body: String) -> (r: CoverAction)
        ensures
            same_job(*old(self), *final(self)),
            job_refused(*old(self), *final(self), r, status, body@),
    {
        let e = self.client.request_failed(status, body);
        self.end(Err(e))
    }

    fn save(&mut self, bytes: Vec<u8>) -> (r: CoverAction)
        ensures
            same_job(*old(self), *final(self)),
            job_saves(*old(self), *final(self), r, bytes@),
    {
        self.stage = CoverStage::Saving;
        CoverAction::Save { path: self.target.clone(), bytes }
    }

    /// The prompt that was sent for the image, once there is one.
    pub fn prompt(&self) -> (r: Option<&String>)
        ensures
            self.stage matches CoverStage::Drawing { prompt } ==> r == Some(&prompt),
            !(self.stage is Drawing) ==> r is None,
    {
        match &self.stage {
            CoverStage::Drawing { prompt } => Some(prompt),
            _ => None,
        }
    }

    /// Moves the job on by what the driver reports.
    pub fn step(&mut self, event: CoverEvent) -> (r: CoverAction)
        ensures
            cover_transition(*old(self), event, *final(self), r),
    {
        let mut stage = CoverStage::Done;
        std::mem::swap(&mut stage, &mut self.stage);
        match (stage, event) {
            (CoverStage::Describing, CoverEvent::Answered { status, body }) => {
                if 200 <= status && status < 300 {
                    let scene = self.client.scene_from_response(body.as_str());
                    let prompt = self.client.create_dalle_prompt(scene.as_str());
                    let request = self.client.image_request(prompt.as_str());
                    self.stage = CoverStage::Drawing { prompt };
                    CoverAction::Send { request }
                } else {
                    self.refused(status, body)
                }
            },
            (CoverStage::Drawing { .. }, CoverEvent::Answered { status, body }) => {
                if 200 <= status && status < 300 {
                    match image_from_response(&self.client.config, body.as_str()) {
                        Ok(ImageRef::Url(url)) => {
                            self.stage = CoverStage::Fetching;
                            CoverAction::Fetch { url }
                        },
                        Ok(ImageRef::Inline(data)) => match decode_inline_image(data.as_str()) {
                            Ok(bytes) => self.save(bytes),
                            Err(e) => self.end(Err(e)),
                        },
                        Err(e) => self.end(Err(e)),
                    }
                } else {
                    self.refused(status, body)
                }
            },
            (CoverStage::Fetching, CoverEvent::Fetched { status, bytes }) => {
                if 200 <= status && status < 300 {
                    self.save(bytes)
                } else {
                    let empty = String::new();
                    self.refused(status, empty)
                }
            },
            (CoverStage::Saving, CoverEvent::Saved { result }) => self.end(result),
            (CoverStage::Describing, CoverEvent::Unreachable { error }) => self.end(Err(error)),
            (CoverStage::Drawing { .. }, CoverEvent::Unreachable { error }) => self.end(Err(error)),
            (CoverStage::Fetching, CoverEvent::Unreachable { error }) => self.end(Err(error)),
            _ => self.end(
                Err(
                    Error::Generic {
                        message: String::from_str("event does not fit the stage of the cover"),
                    },
                ),
            ),
        }
    }
}

} // verus!
