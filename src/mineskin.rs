use crate::outcome::UpstreamOutcome;
use rand::Rng;
use vstd::prelude::*;

verus! {

/// The length of the throwaway display name sent with each generation request.
pub const NAME_LENGTH: usize = 32;

/// The visibility requested for generated skins: public.
pub const VISIBILITY_PUBLIC: u8 = 0;

pub open spec fn is_ascii_alphanumeric(c: char) -> bool {
    ('A' <= c && c <= 'Z') || ('a' <= c && c <= 'z') || ('0' <= c && c <= '9')
}

/// A display name as the generation endpoint wants it: a fixed number of ASCII letters and digits.
pub open spec fn is_request_name(s: Seq<char>) -> bool {
    &&& s.len() == NAME_LENGTH
    &&& forall|i: int| 0 <= i < s.len() ==> is_ascii_alphanumeric(#[trigger] s[i])
}

/// Relies on rand's `Alphanumeric` distribution, sampled through `thread_rng`: each sample is
/// one of the 62 ASCII letters and digits, and `take` keeps exactly `len` of them.
#[verifier::external_body]
fn random_name(len: usize) -> (r: String)
    ensures
        r@.len() == len,
        forall|i: int| 0 <= i < r@.len() ==> is_ascii_alphanumeric(#[trigger] r@[i]),
{
    rand::thread_rng().sample_iter(rand::distributions::Alphanumeric).take(len).map(char::from).collect()
}

/// The body of a skin generation request: either a player identifier or an image URL,
/// a throwaway display name, and the visibility.
#[derive(Debug, Clone)]
pub struct MineskinRequest {
    pub uuid: Option<String>,
    pub url: Option<String>,
    pub name: String,
    pub visibility: u8,
}

impl MineskinRequest {
    /// A request to generate the skin of the player with identifier `uuid`.
    pub fn from_uuid(uuid: &str) -> (r: Self)
        ensures
            r.uuid matches Some(u) && u@ == uuid@,
            r.url is None,
            is_request_name(r.name@),
            r.visibility == VISIBILITY_PUBLIC,
    {
        MineskinRequest {
            uuid: Some(uuid.to_owned()),
            url: None,
            name: random_name(NAME_LENGTH),
            visibility: VISIBILITY_PUBLIC,
        }
    }

    /// A request to generate a skin from the image at `url`.
    pub fn from_url(url: &str) -> (r: Self)
        ensures
            r.uuid is None,
            r.url matches Some(u) && u@ == url@,
            is_request_name(r.name@),
            r.visibility == VISIBILITY_PUBLIC,
    {
        MineskinRequest {
            uuid: None,
            url: Some(url.to_owned()),
            name: random_name(NAME_LENGTH),
            visibility: VISIBILITY_PUBLIC,
        }
    }
}

/// A signed skin texture.
#[derive(Debug, Clone, PartialEq, Eq)]
pub struct MineskinTextureInfo {
    pub value: String,
    pub signature: String,
}

/// The payload of a successful generation.
#[derive(Debug, Clone, PartialEq, Eq)]
pub struct MineskinSkinData {
    pub texture: MineskinTextureInfo,
}

/// The error envelope of a generation response.
#[derive(Debug, Clone, PartialEq, Eq)]
pub struct MineskinError {
    pub error: String,
    pub error_code: Option<String>,
    pub next_request: Option<i64>,
    pub delay: Option<i64>,
}

/// A generation response: a payload, an error envelope, both or neither.
#[derive(Debug, Clone, PartialEq, Eq)]
pub struct MineskinResponse {
    pub data: Option<MineskinSkinData>,
    pub error: Option<MineskinError>,
}

/// How a generation response is classified: an error envelope wins over a payload; a
/// rejection code wins over a back-off hint; an envelope with neither, or a response with
/// no payload at all, is a server error.
pub open spec fn skin_outcome(resp: MineskinResponse) -> UpstreamOutcome<MineskinTextureInfo> {
    match resp.error {
        Some(e) => match e.error_code {
            Some(code) => UpstreamOutcome::Rejected(code),
            None => if e.next_request is Some {
                UpstreamOutcome::RateLimited
            } else {
                UpstreamOutcome::ServerError
            },
        },
        None => match resp.data {
            Some(d) => UpstreamOutcome::Success(d.texture),
            None => UpstreamOutcome::ServerError,
        },
    }
}

/// Classifies a generation response.
pub fn classify_skin_response(resp: MineskinResponse) -> (r: UpstreamOutcome<MineskinTextureInfo>)
    ensures
        r == skin_outcome(resp),
{
    match resp.error {
        Some(e) => match e.error_code {
            Some(code) => UpstreamOutcome::Rejected(code),
            None => {
                if e.next_request.is_some() {
                    UpstreamOutcome::RateLimited
                } else {
                    UpstreamOutcome::ServerError
                }
            },
        },
        None => match resp.data {
            Some(d) => UpstreamOutcome::Success(d.texture),
            None => UpstreamOutcome::ServerError,
        },
    }
}

} // verus!
