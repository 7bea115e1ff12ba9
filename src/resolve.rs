use crate::bitmap::{Bitmap, Raster};
use crate::compose::{composed, composite};
use crate::decode::{decode, decode_outcome, outcome_view};
use crate::error::ErrorKind;
use crate::extract::{extract_from_body, extracted, lossy_text, opt_string_view};
use vstd::prelude::*;

verus! {

/// The site that profile pages are fetched from.
pub const PROFILE_BASE: &'static str = "https://github.com";

/// The client identifier sent with every request.
pub const USER_AGENT: &'static str = "yells.at (@davidcornu)";

/// The `Accept` header sent when a profile page is fetched.
pub const HTML_ACCEPT: &'static str = "text/html";

/// What `url::Url::parse(base)` followed by `path_segments_mut().extend([segment])`
/// serialises to; `None` where the base does not parse or cannot take a path.
pub uninterp spec fn segment_url(base: Seq<char>, segment: Seq<char>) -> Option<Seq<char>>;

/// Relies on `url::Url::parse`, `Url::path_segments_mut` and
/// `PathSegmentsMut::extend`: the segment is appended to the base's path,
/// percent-encoded as a single segment.
#[verifier::external_body]
fn url_with_segment(base: &str, segment: &str) -> (r: Option<String>)
    ensures
        opt_string_view(r) == segment_url(base@, segment@),
{
    let mut url = url::Url::parse(base).ok()?;
    url.path_segments_mut().ok()?.extend(&[segment]);
    Some(String::from(url.as_str()))
}

/// The URL of a user's public profile page.
pub fn public_profile_url(username: &str) -> (r: Option<String>)
    ensures
        opt_string_view(r) == segment_url(PROFILE_BASE@, username@),
{
    url_with_segment(PROFILE_BASE, username)
}

/// An outbound GET: the URL and the `Accept` header, if any. The client
/// identifier `USER_AGENT` goes with every request.
pub struct FetchRequest {
    pub url: String,
    pub accept: Option<String>,
}

/// A response as it came back: status, declared content type, whole body.
pub struct FetchResponse {
    pub status: u16,
    pub content_type: Option<String>,
    pub body: Vec<u8>,
}

/// How a fetch ended: with a response of any status, or with a transport fault.
pub enum FetchOutcome {
    Received(FetchResponse),
    TransportFailed,
}

/// What the lookup asks for next: a fetch, or the end with its outcome.
pub enum Action {
    Fetch(FetchRequest),
    Finish(Result<Option<Bitmap>, ErrorKind>),
}

/// The model of an action.
pub ghost enum Plan {
    Fetch { url: Seq<char>, accept: Option<Seq<char>> },
    Finish(Result<Option<Raster>, ErrorKind>),
}

impl View for Action {
    type V = Plan;

    open spec fn view(&self) -> Plan {
        match self {
            Action::Fetch(req) => Plan::Fetch { url: req.url@, accept: opt_string_view(req.accept) },
            Action::Finish(r) => Plan::Finish(outcome_view(*r)),
        }
    }
}

/// Where an avatar lookup stands.
#[derive(Debug, Clone, Copy, PartialEq, Eq, Structural)]
pub enum Stage {
    /// The profile page has been asked for.
    Profile,
    /// The avatar image has been asked for.
    Avatar,
    /// The lookup has ended.
    Done,
}

/// A 2xx status.
pub open spec fn is_success(status: u16) -> bool {
    200 <= status <= 299
}

/// The first step of a lookup for `username`.
pub open spec fn lookup_start(username: Seq<char>) -> (Stage, Plan) {
    match segment_url(PROFILE_BASE@, username) {
        Some(u) => (Stage::Profile, Plan::Fetch { url: u, accept: Some(HTML_ACCEPT@) }),
        None => (Stage::Done, Plan::Finish(Ok(None))),
    }
}

/// The step a lookup in `stage` takes on the outcome of its fetch. A transport
/// fault ends it with an error; a non-2xx status ends it with no avatar. A
/// profile page leads to the avatar's URL, or to no avatar; the avatar's bytes
/// are decoded under their declared type.
pub open spec fn lookup_step(stage: Stage, outcome: FetchOutcome) -> (Stage, Plan) {
    match outcome {
        FetchOutcome::TransportFailed => (Stage::Done, Plan::Finish(Err(ErrorKind::Transport))),
        FetchOutcome::Received(resp) => if !is_success(resp.status) {
            (Stage::Done, Plan::Finish(Ok(None)))
        } else if stage == Stage::Profile {
            match extracted(lossy_text(resp.body@)) {
                Some(u) => (Stage::Avatar, Plan::Fetch { url: u, accept: None }),
                None => (Stage::Done, Plan::Finish(Ok(None))),
            }
        } else {
            (Stage::Done, Plan::Finish(decode_outcome(resp.body@, opt_string_view(resp.content_type))))
        },
    }
}

/// Finds a user's avatar: the profile page is fetched, the URL of its preview
/// image extracted, that image fetched and decoded. The fetches are made by
/// the caller, which hands each outcome back.
pub struct AvatarLookup {
    stage: Stage,
}

impl View for AvatarLookup {
    type V = Stage;

    closed spec fn view(&self) -> Stage {
        self.stage
    }
}

impl AvatarLookup {
    /// Starts a lookup for `username`.
    pub fn start(username: &str) -> (r: (AvatarLookup, Action))
        ensures
            (r.0@, r.1@) == lookup_start(username@),
    {
        match public_profile_url(username) {
            Some(url) => {
                let accept = String::from_str(HTML_ACCEPT);
                (AvatarLookup { stage: Stage::Profile }, Action::Fetch(FetchRequest { url, accept: Some(accept) }))
            },
            None => (AvatarLookup { stage: Stage::Done }, Action::Finish(Ok(None))),
        }
    }

    pub fn stage(&self) -> (r: Stage)
        ensures
            r == self@,
    {
        self.stage
    }

    /// Takes the outcome of the fetch that the last action asked for.
    pub fn advance(&mut self, outcome: FetchOutcome) -> (r: Action)
        requires
            old(self)@ != Stage::Done,
        ensures
            (final(self)@, r@) == lookup_step(old(self)@, outcome),
            r matches Action::Finish(Ok(Some(b))) ==> b.wf(),
    {
        match outcome {
            FetchOutcome::TransportFailed => {
                self.stage = Stage::Done;
                Action::Finish(Err(ErrorKind::Transport))
            },
            FetchOutcome::Received(resp) => {
                if resp.status < 200 || resp.status > 299 {
                    self.stage = Stage::Done;
                    return Action::Finish(Ok(None));
                }
                if self.stage == Stage::Profile {
                    match extract_from_body(resp.body.as_slice()) {
                        Some(url) => {
                            self.stage = Stage::Avatar;
                            Action::Fetch(FetchRequest { url, accept: None })
                        },
                        None => {
                            self.stage = Stage::Done;
                            Action::Finish(Ok(None))
                        },
                    }
                } else {
                    self.stage = Stage::Done;
                    let content_type = match &resp.content_type {
                        Some(t) => Some(t.as_str()),
                        None => None,
                    };
                    Action::Finish(decode(resp.body.as_slice(), content_type))
                }
            },
        }
    }
}

/// What a generation yields once the avatar lookup has ended: the error as it
/// came, no image where no avatar was found, else the composite.
pub open spec fn generation_outcome(found: Result<Option<Raster>, ErrorKind>, template: Raster) -> Result<Option<Raster>, ErrorKind> {
    match found {
        Err(e) => Err(e),
        Ok(None) => Ok(None),
        Ok(Some(avatar)) => Ok(Some(composed(avatar, template))),
    }
}

/// Ends a generation: lays the avatar that the lookup found over the template.
pub fn finish_generation(found: Result<Option<Bitmap>, ErrorKind>, template: &Bitmap) -> (r: Result<Option<Bitmap>, ErrorKind>)
    requires
        template.wf(),
        found matches Ok(Some(b)) ==> b.wf(),
    ensures
        outcome_view(r) == generation_outcome(outcome_view(found), template@),
        r matches Ok(Some(b)) ==> b.wf() && b@.width == template@.width && b@.height == template@.height,
{
    match found {
        Err(e) => Err(e),
        Ok(None) => Ok(None),
        Ok(Some(avatar)) => Ok(Some(composite(&avatar, template))),
    }
}

} // verus!
