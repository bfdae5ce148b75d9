use skinfixer::cache::{CacheTable, Player, CACHE_TTL_SECONDS};
use skinfixer::error::Error;
use skinfixer::key_rotation::KeyRotation;
use skinfixer::mineskin::{MineskinRequest, MineskinTextureInfo};
use skinfixer::outcome::UpstreamOutcome;
use skinfixer::resolver::{
    name_result, name_start, name_step, record_texture, skin_result, skin_start, skin_step,
    upstream_failure, NameEvent, NOT_FOUND_MESSAGE, NamePhase, SkinEvent, SkinPhase, UserResponse,
};

fn texture(value: &str, signature: &str) -> MineskinTextureInfo {
    MineskinTextureInfo { value: value.to_string(), signature: signature.to_string() }
}

fn user_response(value: &str, signature: &str) -> UserResponse {
    UserResponse { value: value.to_string(), signature: signature.to_string() }
}

/// An upstream stub that answers every call alike and counts the calls and the keys used.
struct Upstream {
    answer: UpstreamOutcome<MineskinTextureInfo>,
    calls: usize,
    keys: Vec<String>,
}

impl Upstream {
    fn new(answer: UpstreamOutcome<MineskinTextureInfo>) -> Self {
        Upstream { answer, calls: 0, keys: Vec::new() }
    }

    fn generate(&mut self, request: &MineskinRequest, key: String) -> UpstreamOutcome<MineskinTextureInfo> {
        assert_eq!(request.visibility, 0);
        self.calls += 1;
        self.keys.push(key);
        self.answer.clone()
    }
}

/// Drives a skin resolution by identifier (`cacheable`) or by URL against an in-memory cache.
fn resolve(
    cacheable: bool,
    subject: &str,
    cache: &mut CacheTable,
    read_fails: bool,
    write_fails: bool,
    rotation: &mut KeyRotation,
    upstream: &mut Upstream,
    now: i64,
) -> Result<UserResponse, Error> {
    let key = subject.to_string();
    let mut phase = skin_start(cacheable);
    loop {
        let event = match &phase {
            SkinPhase::Checking => {
                if read_fails {
                    SkinEvent::CacheRead(Err(Error::Storage))
                } else {
                    SkinEvent::CacheRead(Ok(cache.get(&key, now).map(|r| record_texture(&r))))
                }
            }
            SkinPhase::Fetching => {
                let request = if cacheable {
                    MineskinRequest::from_uuid(subject)
                } else {
                    MineskinRequest::from_url(subject)
                };
                SkinEvent::Fetched(upstream.generate(&request, rotation.next_key()))
            }
            SkinPhase::Populating(t) => {
                if write_fails {
                    SkinEvent::CacheWritten(Err(Error::Storage))
                } else {
                    cache.put(key.clone(), t.signature.clone(), t.value.clone(), now);
                    SkinEvent::CacheWritten(Ok(()))
                }
            }
            SkinPhase::Done(_) | SkinPhase::Failed(_) => return skin_result(phase).unwrap(),
        };
        phase = skin_step(cacheable, phase, event);
    }
}

fn rotation() -> KeyRotation {
    KeyRotation::new(vec!["k1".to_string(), "k2".to_string()]).unwrap()
}

#[test]
fn cold_cache_then_cached_answer_without_upstream_call() {
    let mut cache = CacheTable::new(CACHE_TTL_SECONDS);
    let mut keys = rotation();
    let mut upstream = Upstream::new(UpstreamOutcome::Success(texture("V1", "S1")));
    let now = 1_700_000_000;
    let first = resolve(true, "abc-123", &mut cache, false, false, &mut keys, &mut upstream, now);
    assert_eq!(first, Ok(user_response("V1", "S1")));
    assert_eq!(upstream.calls, 1);
    let stored = cache.get(&"abc-123".to_string(), now).unwrap();
    assert_eq!(stored.expires_at, now + 60 * 24 * 60 * 60);
    assert_eq!((stored.value.as_str(), stored.signature.as_str()), ("V1", "S1"));

    let mut failing = Upstream::new(UpstreamOutcome::ServerError);
    let second = resolve(true, "abc-123", &mut cache, false, false, &mut keys, &mut failing, now + 3600);
    assert_eq!(second, Ok(user_response("V1", "S1")));
    assert_eq!(failing.calls, 0);
    assert_eq!(upstream.calls, 1);
}

#[test]
fn expired_record_goes_upstream_again() {
    let mut cache = CacheTable::new(100);
    let mut keys = rotation();
    let mut upstream = Upstream::new(UpstreamOutcome::Success(texture("V1", "S1")));
    resolve(true, "id", &mut cache, false, false, &mut keys, &mut upstream, 0).unwrap();
    let mut fresh = Upstream::new(UpstreamOutcome::Success(texture("V2", "S2")));
    let again = resolve(true, "id", &mut cache, false, false, &mut keys, &mut fresh, 100);
    assert_eq!(again, Ok(user_response("V2", "S2")));
    assert_eq!(fresh.calls, 1);
    assert_eq!(fresh.keys, vec!["k2".to_string()]);
    assert_eq!(cache.len(), 1);
}

#[test]
fn cache_read_failure_falls_back_to_upstream() {
    let mut cache = CacheTable::new(CACHE_TTL_SECONDS);
    let mut keys = rotation();
    let mut upstream = Upstream::new(UpstreamOutcome::Success(texture("V1", "S1")));
    let got = resolve(true, "abc-123", &mut cache, true, false, &mut keys, &mut upstream, 10);
    assert_eq!(got, Ok(user_response("V1", "S1")));
    assert_eq!(upstream.calls, 1);
}

#[test]
fn cache_write_failure_still_returns_the_texture() {
    let mut cache = CacheTable::new(CACHE_TTL_SECONDS);
    let mut keys = rotation();
    let mut upstream = Upstream::new(UpstreamOutcome::Success(texture("V1", "S1")));
    let got = resolve(true, "abc-123", &mut cache, false, true, &mut keys, &mut upstream, 10);
    assert_eq!(got, Ok(user_response("V1", "S1")));
    assert_eq!(cache.len(), 0);
}

#[test]
fn url_requests_are_never_cached() {
    let mut cache = CacheTable::new(CACHE_TTL_SECONDS);
    let mut keys = rotation();
    let mut upstream = Upstream::new(UpstreamOutcome::Success(texture("V", "S")));
    let url = "https://example.com/skin.png";
    for _ in 0..2 {
        let got = resolve(false, url, &mut cache, false, false, &mut keys, &mut upstream, 10);
        assert_eq!(got, Ok(user_response("V", "S")));
    }
    assert_eq!(upstream.calls, 2);
    assert_eq!(upstream.keys, vec!["k1".to_string(), "k2".to_string()]);
    assert_eq!(cache.len(), 0);
}

#[test]
fn upstream_failures_are_classified() {
    let cases = [
        (UpstreamOutcome::RateLimited, Error::TooManyRequests),
        (UpstreamOutcome::Rejected("BadImage".to_string()), Error::BadRequest("BadImage".to_string())),
        (UpstreamOutcome::ServerError, Error::InternalServer),
        (UpstreamOutcome::NotFound, Error::InternalServer),
    ];
    for (answer, expected) in cases {
        let mut cache = CacheTable::new(CACHE_TTL_SECONDS);
        let mut keys = rotation();
        let mut upstream = Upstream::new(answer);
        let got = resolve(true, "abc-123", &mut cache, false, false, &mut keys, &mut upstream, 10);
        assert_eq!(got, Err(expected));
        assert_eq!(cache.len(), 0);
    }
    let failure: Error = upstream_failure(UpstreamOutcome::<String>::RateLimited);
    assert_eq!(failure, Error::TooManyRequests);
}

#[test]
fn mismatched_event_changes_nothing() {
    let phase = skin_step(true, SkinPhase::Checking, SkinEvent::CacheWritten(Ok(())));
    assert_eq!(phase, SkinPhase::Checking);
    assert_eq!(skin_result(phase), None);
    assert_eq!(skin_start(false), SkinPhase::Fetching);
}

/// Drives a name resolution; `stored` is what the binding read returns, `fetched` what the
/// profile lookup answers. Returns the answer and the number of lookups made.
fn resolve_name(
    name: &str,
    now: i64,
    stored: Result<Option<Player>, Error>,
    evict: Result<(), Error>,
    fetched: UpstreamOutcome<String>,
) -> (Result<String, Error>, usize, Option<String>) {
    assert!(!name.is_empty());
    let mut phase = name_start();
    let mut stored = Some(stored);
    let mut evict = Some(evict);
    let mut lookups = 0;
    let mut written = None;
    loop {
        let event = match &phase {
            NamePhase::Checking => NameEvent::BindingRead(stored.take().unwrap()),
            NamePhase::Evicting => NameEvent::Evicted(evict.take().unwrap()),
            NamePhase::Fetching => {
                lookups += 1;
                NameEvent::Fetched(fetched.clone())
            }
            NamePhase::Populating(id) => {
                written = Some(id.clone());
                NameEvent::BindingWritten(Ok(()))
            }
            NamePhase::Done(_) | NamePhase::Failed(_) => {
                return (name_result(phase).unwrap(), lookups, written)
            }
        };
        phase = name_step(now, phase, event);
    }
}

fn player(uuid: &str, exp: i64) -> Player {
    Player { uuid: uuid.to_string(), exp }
}

#[test]
fn fresh_binding_answers_without_lookup() {
    let got = resolve_name("Notch", 10, Ok(Some(player("u1", 11))), Ok(()), UpstreamOutcome::ServerError);
    assert_eq!(got, (Ok("u1".to_string()), 0, None));
}

#[test]
fn expired_binding_is_evicted_and_refreshed() {
    let fetched = UpstreamOutcome::Success("u2".to_string());
    let got = resolve_name("Notch", 11, Ok(Some(player("u1", 11))), Ok(()), fetched);
    assert_eq!(got, (Ok("u2".to_string()), 1, Some("u2".to_string())));
}

#[test]
fn failed_eviction_falls_back_to_lookup() {
    let fetched = UpstreamOutcome::Success("u2".to_string());
    let got = resolve_name("Notch", 20, Ok(Some(player("u1", 11))), Err(Error::Storage), fetched);
    assert_eq!(got, (Ok("u2".to_string()), 1, Some("u2".to_string())));
}

#[test]
fn unknown_name_is_not_found() {
    let got = resolve_name("nobody", 10, Ok(None), Ok(()), UpstreamOutcome::NotFound);
    let message = "No UUID was found for that nickname".to_string();
    assert_eq!(NOT_FOUND_MESSAGE, message);
    assert_eq!(got, (Err(Error::NotFound(message)), 1, None));
}

#[test]
fn binding_read_failure_falls_back_to_lookup() {
    let fetched = UpstreamOutcome::Success("u3".to_string());
    let got = resolve_name("Notch", 10, Err(Error::Storage), Ok(()), fetched);
    assert_eq!(got, (Ok("u3".to_string()), 1, Some("u3".to_string())));
}

#[test]
fn name_lookup_backoff_is_too_many_requests() {
    let got = resolve_name("Notch", 10, Ok(None), Ok(()), UpstreamOutcome::RateLimited);
    assert_eq!(got, (Err(Error::TooManyRequests), 1, None));
    let got = resolve_name("Notch", 10, Ok(None), Ok(()), UpstreamOutcome::ServerError);
    assert_eq!(got, (Err(Error::InternalServer), 1, None));
}
