use crate::cache::{after_get, after_put, hit_of, lookup_of, CacheRecord, Player};
use crate::mineskin::{skin_outcome, MineskinResponse};
use crate::mojang::{error_marker, has_substring, name_outcome};
use crate::error::Error;
use crate::mineskin::MineskinTextureInfo;
use crate::outcome::UpstreamOutcome;
use vstd::prelude::*;

verus! {

/// Where a skin resolution stands. Each open phase names the one piece of outside work that
/// the driver performs next; `Done` and `Failed` are final.
#[derive(Debug, Clone, PartialEq, Eq)]
pub enum SkinPhase {
    /// Read the cache for the identifier.
    Checking,
    /// Call the generation upstream with the next key.
    Fetching,
    /// Write the fresh texture to the cache under the identifier.
    Populating(MineskinTextureInfo),
    Done(MineskinTextureInfo),
    Failed(Error),
}

/// What the driver reports back after the work that a phase asked for.
#[derive(Debug, PartialEq, Eq)]
pub enum SkinEvent {
    CacheRead(Result<Option<MineskinTextureInfo>, Error>),
    Fetched(UpstreamOutcome<MineskinTextureInfo>),
    CacheWritten(Result<(), Error>),
}

/// The error that reports an upstream call that did not succeed.
pub open spec fn failure_of<T>(o: UpstreamOutcome<T>) -> Error {
    match o {
        UpstreamOutcome::RateLimited => Error::TooManyRequests,
        UpstreamOutcome::Rejected(code) => Error::BadRequest(code),
        _ => Error::InternalServer,
    }
}

/// The first phase: identifiers are looked up in the cache first, URLs go straight upstream
/// because a URL is no stable identity.
pub open spec fn skin_start_phase(cacheable: bool) -> SkinPhase {
    if cacheable {
        SkinPhase::Checking
    } else {
        SkinPhase::Fetching
    }
}

/// One transition of a skin resolution. A storage failure while checking or populating is
/// soft: the resolution goes on as on a miss, or returns the fresh texture unsaved. An event
/// that does not answer the current phase changes nothing.
pub open spec fn skin_next(cacheable: bool, phase: SkinPhase, event: SkinEvent) -> SkinPhase {
    match (phase, event) {
        (SkinPhase::Checking, SkinEvent::CacheRead(Ok(Some(t)))) => SkinPhase::Done(t),
        (SkinPhase::Checking, SkinEvent::CacheRead(_)) => SkinPhase::Fetching,
        (SkinPhase::Fetching, SkinEvent::Fetched(o)) => match o {
            UpstreamOutcome::Success(t) => if cacheable {
                SkinPhase::Populating(t)
            } else {
                SkinPhase::Done(t)
            },
            _ => SkinPhase::Failed(failure_of(o)),
        },
        (SkinPhase::Populating(t), SkinEvent::CacheWritten(_)) => SkinPhase::Done(t),
        (p, _) => p,
    }
}

pub fn skin_start(cacheable: bool) -> (r: SkinPhase)
    ensures
        r == skin_start_phase(cacheable),
{
    if cacheable {
        SkinPhase::Checking
    } else {
        SkinPhase::Fetching
    }
}

/// Maps an upstream call that did not succeed to the error the caller sees.
pub fn upstream_failure<T>(o: UpstreamOutcome<T>) -> (r: Error)
    ensures
        r == failure_of(o),
{
    match o {
        UpstreamOutcome::RateLimited => Error::TooManyRequests,
        UpstreamOutcome::Rejected(code) => Error::BadRequest(code),
        UpstreamOutcome::Success(_) | UpstreamOutcome::NotFound | UpstreamOutcome::ServerError => {
            Error::InternalServer
        },
    }
}

/// Advances a skin resolution by one event.
pub fn skin_step(cacheable: bool, phase: SkinPhase, event: SkinEvent) -> (r: SkinPhase)
    ensures
        r == skin_next(cacheable, phase, event),
{
    match (phase, event) {
        (SkinPhase::Checking, SkinEvent::CacheRead(read)) => match read {
            Ok(Some(t)) => SkinPhase::Done(t),
            _ => SkinPhase::Fetching,
        },
        (SkinPhase::Fetching, SkinEvent::Fetched(o)) => match o {
            UpstreamOutcome::Success(t) => {
                if cacheable {
                    SkinPhase::Populating(t)
                } else {
                    SkinPhase::Done(t)
                }
            },
            _ => SkinPhase::Failed(upstream_failure(o)),
        },
        (SkinPhase::Populating(t), SkinEvent::CacheWritten(_)) => SkinPhase::Done(t),
        (p, _) => p,
    }
}

/// The texture payload handed back to callers.
#[derive(Debug, Clone, PartialEq, Eq)]
pub struct UserResponse {
    pub value: String,
    pub signature: String,
}

pub open spec fn response_of(t: MineskinTextureInfo) -> UserResponse {
    UserResponse { value: t.value, signature: t.signature }
}

/// The final answer of a resolution that has ended, or `None` while it is still open.
pub open spec fn skin_answer(phase: SkinPhase) -> Option<Result<UserResponse, Error>> {
    match phase {
        SkinPhase::Done(t) => Some(Ok(response_of(t))),
        SkinPhase::Failed(e) => Some(Err(e)),
        _ => None,
    }
}

pub fn skin_result(phase: SkinPhase) -> (r: Option<Result<UserResponse, Error>>)
    ensures
        r == skin_answer(phase),
{
    match phase {
        SkinPhase::Done(t) => Some(Ok(UserResponse { value: t.value, signature: t.signature })),
        SkinPhase::Failed(e) => Some(Err(e)),
        _ => None,
    }
}

/// The texture that a cache record holds.
pub open spec fn texture_of(rec: CacheRecord) -> MineskinTextureInfo {
    MineskinTextureInfo { value: rec.value, signature: rec.signature }
}

pub fn record_texture(rec: &CacheRecord) -> (r: MineskinTextureInfo)
    ensures
        r == texture_of(*rec),
{
    MineskinTextureInfo { value: rec.value.clone(), signature: rec.signature.clone() }
}

/// The texture found by a cache read, if any.
pub open spec fn found_texture(rec: Option<CacheRecord>) -> Option<MineskinTextureInfo> {
    match rec {
        Some(r) => Some(texture_of(r)),
        None => None,
    }
}

/// One resolution of a skin by identifier against a cache holding `rows`, at `now`, whose
/// upstream call, if one is made, comes to `outcome`: the phase it ends in, the rows it
/// leaves, and whether the upstream was called.
pub open spec fn skin_run(
    rows: Seq<CacheRecord>,
    id: String,
    now: i64,
    ttl: i64,
    outcome: UpstreamOutcome<MineskinTextureInfo>,
) -> (SkinPhase, Seq<CacheRecord>, bool) {
    let read = found_texture(hit_of(lookup_of(rows, id@, now)));
    let checked = after_get(rows, id@, now);
    let p1 = skin_next(true, SkinPhase::Checking, SkinEvent::CacheRead(Ok(read)));
    if p1 is Fetching {
        let p2 = skin_next(true, p1, SkinEvent::Fetched(outcome));
        match p2 {
            SkinPhase::Populating(t) => (
                skin_next(true, p2, SkinEvent::CacheWritten(Ok(()))),
                after_put(
                    checked,
                    CacheRecord {
                        key: id,
                        signature: t.signature,
                        value: t.value,
                        expires_at: (now + ttl) as i64,
                    },
                ),
                true,
            ),
            _ => (p2, checked, true),
        }
    } else {
        (p1, checked, false)
    }
}

/// Cache-aside: on a cache with no record for `id`, an upstream success is returned and
/// stored; a later resolution of the same `id`, while the record is fresh, returns the same
/// texture from the cache without calling the upstream, whatever the upstream would say.
pub proof fn lemma_cache_aside(
    rows: Seq<CacheRecord>,
    id: String,
    now: i64,
    later: i64,
    ttl: i64,
    texture: MineskinTextureInfo,
    second_outcome: UpstreamOutcome<MineskinTextureInfo>,
)
    requires
        lookup_of(rows, id@, now) !is Hit,
        crate::cache::expiry_fits(now, ttl),
        later < now + ttl,
    ensures
        ({
            let (p1, rows1, called1) = skin_run(
                rows,
                id,
                now,
                ttl,
                UpstreamOutcome::Success(texture),
            );
            let (p2, rows2, called2) = skin_run(rows1, id, later, ttl, second_outcome);
            &&& called1
            &&& p1 == SkinPhase::Done(texture)
            &&& !called2
            &&& p2 == SkinPhase::Done(texture)
            &&& rows2 == rows1
        }),
{
    let checked = after_get(rows, id@, now);
    let rec = CacheRecord {
        key: id,
        signature: texture.signature,
        value: texture.value,
        expires_at: (now + ttl) as i64,
    };
    crate::cache::lemma_ttl_expiry(
        checked,
        id,
        texture.signature,
        texture.value,
        now,
        ttl,
        later,
        later,
    );
    assert(texture_of(rec) == texture);
}

/// Soft storage failure: when the cache read fails, the resolution still goes upstream, and
/// an upstream success is returned whether or not writing it back succeeds.
pub proof fn lemma_storage_failure_is_soft(
    read_error: Error,
    texture: MineskinTextureInfo,
    write: Result<(), Error>,
)
    ensures
        ({
            let p1 = skin_next(true, SkinPhase::Checking, SkinEvent::CacheRead(Err(read_error)));
            let p2 = skin_next(true, p1, SkinEvent::Fetched(UpstreamOutcome::Success(texture)));
            let p3 = skin_next(true, p2, SkinEvent::CacheWritten(write));
            &&& p1 == SkinPhase::Fetching
            &&& p2 == SkinPhase::Populating(texture)
            &&& skin_answer(p3) == Some(Ok::<UserResponse, Error>(response_of(texture)))
        }),
{
}

/// Where a name resolution stands; each open phase names the next piece of outside work.
#[derive(Debug, Clone, PartialEq, Eq)]
pub enum NamePhase {
    /// Read the stored binding for the name.
    Checking,
    /// Delete the stale bindings for the name.
    Evicting,
    /// Ask the profile lookup for the name.
    Fetching,
    /// Store the binding from the name to the identifier found.
    Populating(String),
    Done(String),
    Failed(Error),
}

#[derive(Debug, PartialEq, Eq)]
pub enum NameEvent {
    BindingRead(Result<Option<Player>, Error>),
    Evicted(Result<(), Error>),
    Fetched(UpstreamOutcome<String>),
    BindingWritten(Result<(), Error>),
}

/// What a name with no player is reported with.
pub const NOT_FOUND_MESSAGE: &'static str = "No UUID was found for that nickname";

/// One transition of a name resolution at `now`; a name with no player fails with `message`.
/// A binding is fresh strictly before its expiry. Reading the binding and evicting a stale one
/// both belong to checking the cache, so a storage failure there is soft and the resolution goes
/// on upstream; a failed write of a fresh binding is soft too.
pub open spec fn name_next(message: String, now: i64, phase: NamePhase, event: NameEvent) -> NamePhase {
    match (phase, event) {
        (NamePhase::Checking, NameEvent::BindingRead(read)) => match read {
            Ok(Some(p)) => if now < p.exp {
                NamePhase::Done(p.uuid)
            } else {
                NamePhase::Evicting
            },
            _ => NamePhase::Fetching,
        },
        (NamePhase::Evicting, NameEvent::Evicted(_)) => NamePhase::Fetching,
        (NamePhase::Fetching, NameEvent::Fetched(o)) => match o {
            UpstreamOutcome::Success(id) => NamePhase::Populating(id),
            UpstreamOutcome::NotFound => NamePhase::Failed(Error::NotFound(message)),
            _ => NamePhase::Failed(failure_of(o)),
        },
        (NamePhase::Populating(id), NameEvent::BindingWritten(_)) => NamePhase::Done(id),
        (p, _) => p,
    }
}

pub fn name_start() -> (r: NamePhase)
    ensures
        r == NamePhase::Checking,
{
    NamePhase::Checking
}

/// Advances a name resolution at `now` by one event.
pub fn name_step(now: i64, phase: NamePhase, event: NameEvent) -> (r: NamePhase)
    ensures
        exists|message: String|
            message@ == NOT_FOUND_MESSAGE@ && r == #[trigger] name_next(message, now, phase, event),
{
    let message = NOT_FOUND_MESSAGE.to_owned();
    let ghost (p, e) = (phase, event);
    let r = match (phase, event) {
        (NamePhase::Checking, NameEvent::BindingRead(read)) => match read {
            Ok(Some(p)) => {
                if now < p.exp {
                    NamePhase::Done(p.uuid)
                } else {
                    NamePhase::Evicting
                }
            },
            _ => NamePhase::Fetching,
        },
        (NamePhase::Evicting, NameEvent::Evicted(_)) => NamePhase::Fetching,
        (NamePhase::Fetching, NameEvent::Fetched(o)) => match o {
            UpstreamOutcome::Success(id) => NamePhase::Populating(id),
            UpstreamOutcome::NotFound => NamePhase::Failed(Error::NotFound(message)),
            _ => NamePhase::Failed(upstream_failure(o)),
        },
        (NamePhase::Populating(id), NameEvent::BindingWritten(_)) => NamePhase::Done(id),
        (other, _) => other,
    };
    assert(r == name_next(message, now, p, e));
    r
}

pub open spec fn name_answer(phase: NamePhase) -> Option<Result<String, Error>> {
    match phase {
        NamePhase::Done(id) => Some(Ok(id)),
        NamePhase::Failed(e) => Some(Err(e)),
        _ => None,
    }
}

pub fn name_result(phase: NamePhase) -> (r: Option<Result<String, Error>>)
    ensures
        r == name_answer(phase),
{
    match phase {
        NamePhase::Done(id) => Some(Ok(id)),
        NamePhase::Failed(e) => Some(Err(e)),
        _ => None,
    }
}

/// Error classification: an upstream rejection code surfaces as a bad request carrying that
/// code; a back-off hint without a code as too many requests; a generation response with
/// neither payload nor error as an internal error; and an empty profile lookup result as
/// not found, on the name path only.
pub proof fn lemma_error_classification(
    resp: MineskinResponse,
    cacheable: bool,
    body: Seq<char>,
    message: String,
    now: i64,
)
    ensures
        (resp.error is Some && resp.error->Some_0.error_code is Some) ==> skin_next(
            cacheable,
            SkinPhase::Fetching,
            SkinEvent::Fetched(skin_outcome(resp)),
        ) == SkinPhase::Failed(Error::BadRequest(resp.error->Some_0.error_code->Some_0)),
        (resp.error is Some && resp.error->Some_0.error_code is None
            && resp.error->Some_0.next_request is Some) ==> skin_next(
            cacheable,
            SkinPhase::Fetching,
            SkinEvent::Fetched(skin_outcome(resp)),
        ) == SkinPhase::Failed(Error::TooManyRequests),
        (resp.error is None && resp.data is None) ==> skin_next(
            cacheable,
            SkinPhase::Fetching,
            SkinEvent::Fetched(skin_outcome(resp)),
        ) == SkinPhase::Failed(Error::InternalServer),
        !has_substring(body, error_marker()) ==> name_next(
            message,
            now,
            NamePhase::Fetching,
            NameEvent::Fetched(name_outcome(body, Some(Seq::<String>::empty()))),
        ) == NamePhase::Failed(Error::NotFound(message)),
{
}

} // verus!
