use api::cache::{Action, CacheError, Event, Orchestrator, TTL_MS};
use api::marker::{encode_marker, parse_marker};

#[test]
fn fresh_marker_serves_stored_bytes() {
    let now: i64 = 1_700_000_000_000;
    let marker = encode_marker(now - 1_000);
    let stored: Vec<u8> = vec![0xde, 0xad, 0xbe, 0xef];

    let mut orch = Orchestrator::new();
    let a = orch.step(Event::MarkerRead(Some(marker)), now);
    assert_eq!(a, Action::ReadArtifact);
    let a = orch.step(Event::ArtifactRead(Some(stored.clone())), now);
    assert_eq!(a, Action::Respond(stored));
}

#[test]
fn stale_marker_fetches_and_updates_both_stores() {
    let marked: i64 = 1_700_000_000_000;
    let now = marked + TTL_MS + 1;
    let fetched: Vec<u8> = vec![1, 2, 3];

    let mut orch = Orchestrator::new();
    let a = orch.step(Event::MarkerRead(Some(encode_marker(marked))), now);
    assert_eq!(a, Action::FetchOrigin);
    let a = orch.step(Event::FetchDone(Some(fetched.clone())), now);
    assert_eq!(a, Action::WriteArtifact(fetched.clone()));
    let a = orch.step(Event::WriteDone(true), now);
    match a {
        Action::WriteMarker(text) => assert_eq!(parse_marker(&text), Some(now)),
        other => panic!("expected a marker write, got {:?}", other),
    }
    let a = orch.step(Event::WriteDone(true), now);
    assert_eq!(a, Action::Respond(fetched));
}

#[test]
fn absent_marker_fetches_once_then_serves_from_store() {
    let now: i64 = 1_700_000_000_000;
    let image: Vec<u8> = vec![9, 9, 9];

    // First request: no marker on disk yet.
    let mut first = Orchestrator::new();
    let a = first.step(Event::MarkerRead(None), now);
    let seed_text = match a {
        Action::WriteMarker(text) => text,
        other => panic!("expected the seed marker write, got {:?}", other),
    };
    assert_eq!(parse_marker(&seed_text), Some(0));
    let a = first.step(Event::WriteDone(true), now);
    assert_eq!(a, Action::FetchOrigin);
    let a = first.step(Event::FetchDone(Some(image.clone())), now);
    assert_eq!(a, Action::WriteArtifact(image.clone()));
    let a = first.step(Event::WriteDone(true), now);
    let fresh_text = match a {
        Action::WriteMarker(text) => text,
        other => panic!("expected the fresh marker write, got {:?}", other),
    };
    assert_eq!(parse_marker(&fresh_text), Some(now));
    let a = first.step(Event::WriteDone(true), now);
    assert_eq!(a, Action::Respond(image.clone()));

    // Second request, right after: the marker just written is fresh, so
    // the artifact is served from the store and no fetch happens.
    let later = now + 10;
    let mut second = Orchestrator::new();
    let a = second.step(Event::MarkerRead(Some(fresh_text)), later);
    assert_eq!(a, Action::ReadArtifact);
    let a = second.step(Event::ArtifactRead(Some(image.clone())), later);
    assert_eq!(a, Action::Respond(image));
}

#[test]
fn ttl_boundary_is_exclusive() {
    let marker_at_epoch = encode_marker(0);

    // Exactly TTL_MS after the marker: still fresh, no fetch.
    let mut at_ttl = Orchestrator::new();
    let a = at_ttl.step(Event::MarkerRead(Some(marker_at_epoch.clone())), 3_600_000);
    assert_eq!(a, Action::ReadArtifact);

    // One millisecond past the TTL: stale, fetch.
    let mut past_ttl = Orchestrator::new();
    let a = past_ttl.step(Event::MarkerRead(Some(marker_at_epoch)), 3_600_001);
    assert_eq!(a, Action::FetchOrigin);
}

#[test]
fn fetch_failure_fails_request_without_store_writes() {
    let marked: i64 = 0;
    let now = marked + TTL_MS + 1;

    let mut orch = Orchestrator::new();
    let a = orch.step(Event::MarkerRead(Some(encode_marker(marked))), now);
    // The only action so far asks for a fetch: neither store was written.
    assert_eq!(a, Action::FetchOrigin);
    let a = orch.step(Event::FetchDone(None), now);
    // The request fails with a fetch error and asks for nothing further.
    assert_eq!(a, Action::Fail(CacheError::Fetch));
}

#[test]
fn missing_artifact_with_fresh_marker_falls_back_to_fetch() {
    let now: i64 = 1_700_000_000_000;
    let fetched: Vec<u8> = vec![42];

    let mut orch = Orchestrator::new();
    let a = orch.step(Event::MarkerRead(Some(encode_marker(now))), now);
    assert_eq!(a, Action::ReadArtifact);
    let a = orch.step(Event::ArtifactRead(None), now);
    assert_eq!(a, Action::FetchOrigin);
    let a = orch.step(Event::FetchDone(Some(fetched.clone())), now);
    assert_eq!(a, Action::WriteArtifact(fetched.clone()));
    let a = orch.step(Event::WriteDone(true), now);
    assert!(matches!(a, Action::WriteMarker(_)));
    let a = orch.step(Event::WriteDone(true), now);
    assert_eq!(a, Action::Respond(fetched));
}

#[test]
fn malformed_marker_reseeds_and_fetches() {
    let now: i64 = 1_700_000_000_000;

    let mut orch = Orchestrator::new();
    let a = orch.step(Event::MarkerRead(Some("three o'clock".to_string())), now);
    let seed_text = match a {
        Action::WriteMarker(text) => text,
        other => panic!("expected the seed marker write, got {:?}", other),
    };
    assert_eq!(parse_marker(&seed_text), Some(0));
    let a = orch.step(Event::WriteDone(true), now);
    assert_eq!(a, Action::FetchOrigin);
}

#[test]
fn store_write_failures_are_fatal() {
    let now: i64 = 1_700_000_000_000;

    // Seed-marker write fails.
    let mut seeding = Orchestrator::new();
    let a = seeding.step(Event::MarkerRead(None), now);
    assert!(matches!(a, Action::WriteMarker(_)));
    let a = seeding.step(Event::WriteDone(false), now);
    assert_eq!(a, Action::Fail(CacheError::StoreWrite));

    // Artifact write fails after a fetch.
    let mut storing = Orchestrator::new();
    let a = storing.step(Event::MarkerRead(Some(encode_marker(0))), now);
    assert_eq!(a, Action::FetchOrigin);
    let a = storing.step(Event::FetchDone(Some(vec![7])), now);
    assert_eq!(a, Action::WriteArtifact(vec![7]));
    let a = storing.step(Event::WriteDone(false), now);
    assert_eq!(a, Action::Fail(CacheError::StoreWrite));
}
