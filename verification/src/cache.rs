//! The cache orchestrator: the per-request state machine that decides, on
//! every request for the picture, whether the artifact stored on disk is
//! still fresh, and coordinates the freshness store, the content store and
//! the origin fetcher.
//!
//! The orchestrator owns no I/O. The host drives it: it reads the marker,
//! feeds the outcome in as an [`Event`], receives an [`Action`] telling it
//! what to do next (write a marker, read or write the artifact, fetch from
//! the origin, respond, or fail), performs it, and reports back, until the
//! action is [`Action::Respond`] or [`Action::Fail`].
//!
//! The whole decision logic is the spec functions [`next_phase`] and
//! [`next_action`]; [`Orchestrator::step`] is proved to follow them
//! exactly, and the lemmas at the end state the cache's guarantees over
//! whole request runs.

use crate::marker::{in_marker_range, marker_millis_of, marker_text_of};
use crate::marker::{encode_marker, parse_marker};
use vstd::prelude::*;

verus! {

/// Time-to-live of the cached artifact, in milliseconds (one hour).
pub const TTL_MS: i64 = 3_600_000;

/// The instant the freshness store is seeded with when the marker is
/// absent or unreadable: the epoch, so that the artifact counts as
/// maximally stale until a real marker is written.
pub const SEED_MS: i64 = 0;

/// Why a request failed. Write failures on either store and origin-fetch
/// failures are fatal to the request; nothing else is.
#[derive(Clone, Copy, Debug, PartialEq, Eq, Structural)]
pub enum CacheError {
    /// A durable write to the freshness store or the content store failed.
    StoreWrite,
    /// The origin was unreachable, timed out, or answered a non-success
    /// status.
    Fetch,
}

/// What the orchestrator asks the host to do next.
#[derive(Debug, PartialEq, Eq)]
pub enum Action {
    /// Overwrite the freshness store with this marker text.
    WriteMarker(String),
    /// Read the content store.
    ReadArtifact,
    /// Fetch a fresh artifact from the origin.
    FetchOrigin,
    /// Overwrite the content store with these bytes.
    WriteArtifact(Vec<u8>),
    /// The request is done: answer with these bytes as `image/jpeg`.
    Respond(Vec<u8>),
    /// The request failed; answer with a server error.
    Fail(CacheError),
}

/// What the host reports back to the orchestrator.
#[derive(Debug, PartialEq, Eq)]
pub enum Event {
    /// The freshness store's text, or `None` where it is absent or
    /// unreadable.
    MarkerRead(Option<String>),
    /// Whether the store write just asked for succeeded.
    WriteDone(bool),
    /// The content store's bytes, or `None` where they are absent or
    /// unreadable.
    ArtifactRead(Option<Vec<u8>>),
    /// The bytes the origin answered with, or `None` where the fetch
    /// failed.
    FetchDone(Option<Vec<u8>>),
}

/// Where a request stands between two exchanges with the host.
#[derive(Debug)]
pub enum Phase {
    /// Waiting for the freshness store to be read.
    AwaitMarker,
    /// Waiting for the seed marker to be written.
    SeedingMarker,
    /// Waiting for the content store to be read.
    AwaitArtifact,
    /// Waiting for the origin fetch.
    AwaitFetch,
    /// Waiting for the fetched bytes to be written to the content store.
    StoringArtifact { bytes: Vec<u8> },
    /// Waiting for the fresh marker to be written.
    StoringMarker { bytes: Vec<u8> },
    /// The request was answered.
    Done,
    /// The request failed.
    Failed,
}

/// Mathematical counterpart of [`Phase`].
pub enum PhaseModel {
    AwaitMarker,
    SeedingMarker,
    AwaitArtifact,
    AwaitFetch,
    StoringArtifact(Seq<u8>),
    StoringMarker(Seq<u8>),
    Done,
    Failed,
}

/// Mathematical counterpart of [`Action`].
pub enum ActionModel {
    WriteMarker(Seq<char>),
    ReadArtifact,
    FetchOrigin,
    WriteArtifact(Seq<u8>),
    Respond(Seq<u8>),
    Fail(CacheError),
}

/// Mathematical counterpart of [`Event`].
pub enum EventModel {
    MarkerRead(Option<Seq<char>>),
    WriteDone(bool),
    ArtifactRead(Option<Seq<u8>>),
    FetchDone(Option<Seq<u8>>),
}

impl View for Phase {
    type V = PhaseModel;

    open spec fn view(&self) -> PhaseModel {
        match self {
            Phase::AwaitMarker => PhaseModel::AwaitMarker,
            Phase::SeedingMarker => PhaseModel::SeedingMarker,
            Phase::AwaitArtifact => PhaseModel::AwaitArtifact,
            Phase::AwaitFetch => PhaseModel::AwaitFetch,
            Phase::StoringArtifact { bytes } => PhaseModel::StoringArtifact(bytes@),
            Phase::StoringMarker { bytes } => PhaseModel::StoringMarker(bytes@),
            Phase::Done => PhaseModel::Done,
            Phase::Failed => PhaseModel::Failed,
        }
    }
}

impl View for Action {
    type V = ActionModel;

    open spec fn view(&self) -> ActionModel {
        match self {
            Action::WriteMarker(text) => ActionModel::WriteMarker(text@),
            Action::ReadArtifact => ActionModel::ReadArtifact,
            Action::FetchOrigin => ActionModel::FetchOrigin,
            Action::WriteArtifact(bytes) => ActionModel::WriteArtifact(bytes@),
            Action::Respond(bytes) => ActionModel::Respond(bytes@),
            Action::Fail(e) => ActionModel::Fail(*e),
        }
    }
}

impl View for Event {
    type V = EventModel;

    open spec fn view(&self) -> EventModel {
        match self {
            Event::MarkerRead(Some(text)) => EventModel::MarkerRead(Some(text@)),
            Event::MarkerRead(None) => EventModel::MarkerRead(None),
            Event::WriteDone(ok) => EventModel::WriteDone(*ok),
            Event::ArtifactRead(Some(bytes)) => EventModel::ArtifactRead(Some(bytes@)),
            Event::ArtifactRead(None) => EventModel::ArtifactRead(None),
            Event::FetchDone(Some(bytes)) => EventModel::FetchDone(Some(bytes@)),
            Event::FetchDone(None) => EventModel::FetchDone(None),
        }
    }
}

/// The staleness rule: the artifact is stale once strictly more than
/// `TTL_MS` milliseconds have passed since the marker's instant. At
/// exactly `TTL_MS` it is still fresh.
pub open spec fn stale(now_ms: i64, marker_ms: i64) -> bool {
    now_ms - marker_ms > TTL_MS
}

/// Which event a phase is waiting for: the host must answer each action
/// with the outcome of that very action.
pub open spec fn accepts(p: PhaseModel, ev: EventModel) -> bool {
    match (p, ev) {
        (PhaseModel::AwaitMarker, EventModel::MarkerRead(_)) => true,
        (PhaseModel::SeedingMarker, EventModel::WriteDone(_)) => true,
        (PhaseModel::AwaitArtifact, EventModel::ArtifactRead(_)) => true,
        (PhaseModel::AwaitFetch, EventModel::FetchDone(_)) => true,
        (PhaseModel::StoringArtifact(_), EventModel::WriteDone(_)) => true,
        (PhaseModel::StoringMarker(_), EventModel::WriteDone(_)) => true,
        _ => false,
    }
}

/// The phase after taking `ev` in phase `p` at time `now_ms`.
pub open spec fn next_phase(p: PhaseModel, ev: EventModel, now_ms: i64) -> PhaseModel {
    match (p, ev) {
        (PhaseModel::AwaitMarker, EventModel::MarkerRead(None)) => PhaseModel::SeedingMarker,
        (PhaseModel::AwaitMarker, EventModel::MarkerRead(Some(text))) => {
            match marker_millis_of(text) {
                None => PhaseModel::SeedingMarker,
                Some(ms) => if stale(now_ms, ms) {
                    PhaseModel::AwaitFetch
                } else {
                    PhaseModel::AwaitArtifact
                },
            }
        },
        (PhaseModel::SeedingMarker, EventModel::WriteDone(ok)) => if ok {
            PhaseModel::AwaitFetch
        } else {
            PhaseModel::Failed
        },
        (PhaseModel::AwaitArtifact, EventModel::ArtifactRead(Some(bytes))) => PhaseModel::Done,
        (PhaseModel::AwaitArtifact, EventModel::ArtifactRead(None)) => PhaseModel::AwaitFetch,
        (PhaseModel::AwaitFetch, EventModel::FetchDone(Some(bytes))) => {
            PhaseModel::StoringArtifact(bytes)
        },
        (PhaseModel::AwaitFetch, EventModel::FetchDone(None)) => PhaseModel::Failed,
        (PhaseModel::StoringArtifact(bytes), EventModel::WriteDone(ok)) => if ok {
            PhaseModel::StoringMarker(bytes)
        } else {
            PhaseModel::Failed
        },
        (PhaseModel::StoringMarker(bytes), EventModel::WriteDone(ok)) => if ok {
            PhaseModel::Done
        } else {
            PhaseModel::Failed
        },
        _ => PhaseModel::Failed,
    }
}

/// The action asked of the host after taking `ev` in phase `p` at time
/// `now_ms`.
pub open spec fn next_action(p: PhaseModel, ev: EventModel, now_ms: i64) -> ActionModel {
    match (p, ev) {
        (PhaseModel::AwaitMarker, EventModel::MarkerRead(None)) => {
            ActionModel::WriteMarker(marker_text_of(SEED_MS))
        },
        (PhaseModel::AwaitMarker, EventModel::MarkerRead(Some(text))) => {
            match marker_millis_of(text) {
                None => ActionModel::WriteMarker(marker_text_of(SEED_MS)),
                Some(ms) => if stale(now_ms, ms) {
                    ActionModel::FetchOrigin
                } else {
                    ActionModel::ReadArtifact
                },
            }
        },
        (PhaseModel::SeedingMarker, EventModel::WriteDone(ok)) => if ok {
            ActionModel::FetchOrigin
        } else {
            ActionModel::Fail(CacheError::StoreWrite)
        },
        (PhaseModel::AwaitArtifact, EventModel::ArtifactRead(Some(bytes))) => {
            ActionModel::Respond(bytes)
        },
        (PhaseModel::AwaitArtifact, EventModel::ArtifactRead(None)) => ActionModel::FetchOrigin,
        (PhaseModel::AwaitFetch, EventModel::FetchDone(Some(bytes))) => {
            ActionModel::WriteArtifact(bytes)
        },
        (PhaseModel::AwaitFetch, EventModel::FetchDone(None)) => {
            ActionModel::Fail(CacheError::Fetch)
        },
        (PhaseModel::StoringArtifact(bytes), EventModel::WriteDone(ok)) => if ok {
            ActionModel::WriteMarker(marker_text_of(now_ms))
        } else {
            ActionModel::Fail(CacheError::StoreWrite)
        },
        (PhaseModel::StoringMarker(bytes), EventModel::WriteDone(ok)) => if ok {
            ActionModel::Respond(bytes)
        } else {
            ActionModel::Fail(CacheError::StoreWrite)
        },
        _ => ActionModel::Fail(CacheError::StoreWrite),
    }
}

/// One request's orchestrator. Make one with [`Orchestrator::new`], read
/// the freshness store, and feed outcomes in with [`Orchestrator::step`]
/// until the returned action is [`Action::Respond`] or [`Action::Fail`].
pub struct Orchestrator {
    phase: Phase,
}

impl View for Orchestrator {
    type V = PhaseModel;

    closed spec fn view(&self) -> PhaseModel {
        self.phase@
    }
}

/// An exact copy of a byte vector.
fn clone_bytes(v: &Vec<u8>) -> (r: Vec<u8>)
    ensures
        r@ == v@,
{
    let r = v.clone();
    proof {
        assert forall|i: int| 0 <= i < v@.len() implies r@[i] == v@[i] by {
            assert(cloned::<u8>(v@[i], r@[i]));
        }
        assert(r@ =~= v@);
    }
    r
}

impl Orchestrator {
    /// A fresh orchestrator for one request. The host begins by reading
    /// the freshness store and reporting it with [`Event::MarkerRead`].
    pub fn new() -> (r: Orchestrator)
        ensures
            r@ == PhaseModel::AwaitMarker,
    {
        Orchestrator { phase: Phase::AwaitMarker }
    }

    /// Takes the outcome of the last action and decides what the host is
    /// to do next, exactly as [`next_phase`] and [`next_action`] say.
    ///
    /// `now_ms` is the host clock's reading, in milliseconds since the
    /// Unix epoch; it decides staleness when the marker is read and is
    /// the instant recorded when the fresh marker is written.
    pub fn step(&mut self, ev: Event, now_ms: i64) -> (a: Action)
        requires
            accepts(old(self)@, ev@),
            in_marker_range(now_ms),
        ensures
            final(self)@ == next_phase(old(self)@, ev@, now_ms),
            a@ == next_action(old(self)@, ev@, now_ms),
    {
        let mut ph = Phase::Failed;
        core::mem::swap(&mut ph, &mut self.phase);
        let (next, act): (Phase, Action) = match (ph, ev) {
            (Phase::AwaitMarker, Event::MarkerRead(read)) => {
                let parsed: Option<i64> = match &read {
                    Some(text) => parse_marker(text.as_str()),
                    None => None,
                };
                match parsed {
                    Some(ms) => {
                        if (now_ms as i128) - (ms as i128) > (TTL_MS as i128) {
                            (Phase::AwaitFetch, Action::FetchOrigin)
                        } else {
                            (Phase::AwaitArtifact, Action::ReadArtifact)
                        }
                    },
                    None => {
                        (Phase::SeedingMarker, Action::WriteMarker(encode_marker(SEED_MS)))
                    },
                }
            },
            (Phase::SeedingMarker, Event::WriteDone(ok)) => {
                if ok {
                    (Phase::AwaitFetch, Action::FetchOrigin)
                } else {
                    (Phase::Failed, Action::Fail(CacheError::StoreWrite))
                }
            },
            (Phase::AwaitArtifact, Event::ArtifactRead(Some(bytes))) => {
                (Phase::Done, Action::Respond(bytes))
            },
            (Phase::AwaitArtifact, Event::ArtifactRead(None)) => {
                (Phase::AwaitFetch, Action::FetchOrigin)
            },
            (Phase::AwaitFetch, Event::FetchDone(Some(bytes))) => {
                let stored = clone_bytes(&bytes);
                (Phase::StoringArtifact { bytes: stored }, Action::WriteArtifact(bytes))
            },
            (Phase::AwaitFetch, Event::FetchDone(None)) => {
                (Phase::Failed, Action::Fail(CacheError::Fetch))
            },
            (Phase::StoringArtifact { bytes }, Event::WriteDone(ok)) => {
                if ok {
                    (
                        Phase::StoringMarker { bytes },
                        Action::WriteMarker(encode_marker(now_ms)),
                    )
                } else {
                    (Phase::Failed, Action::Fail(CacheError::StoreWrite))
                }
            },
            (Phase::StoringMarker { bytes }, Event::WriteDone(ok)) => {
                if ok {
                    (Phase::Done, Action::Respond(bytes))
                } else {
                    (Phase::Failed, Action::Fail(CacheError::StoreWrite))
                }
            },
            _ => {
                proof {
                    assert(false);
                }
                unreached()
            },
        };
        self.phase = next;
        act
    }
}

/// A request that finds a fresh marker and a readable artifact performs no
/// origin fetch and no store write, and answers with exactly the stored
/// bytes: on reading a marker no more than `TTL_MS` old, the orchestrator
/// asks only to read the content store, and answers the bytes read.
pub proof fn lemma_fresh_serves_stored(text: Seq<char>, ms: i64, now_ms: i64, bytes: Seq<u8>)
    ensures
        (marker_millis_of(text) == Some(ms) && !stale(now_ms, ms)) ==> {
            let read = EventModel::MarkerRead(Some(text));
            &&& next_action(PhaseModel::AwaitMarker, read, now_ms) == ActionModel::ReadArtifact
            &&& next_phase(PhaseModel::AwaitMarker, read, now_ms) == PhaseModel::AwaitArtifact
            &&& next_action(
                PhaseModel::AwaitArtifact,
                EventModel::ArtifactRead(Some(bytes)),
                now_ms,
            ) == ActionModel::Respond(bytes)
            &&& next_phase(
                PhaseModel::AwaitArtifact,
                EventModel::ArtifactRead(Some(bytes)),
                now_ms,
            ) == PhaseModel::Done
        },
{
}

/// A request that finds a stale marker performs exactly one origin fetch
/// and then updates both stores: the content store with the fetched bytes
/// and the freshness store with the fetch time, before answering with the
/// fetched bytes. `now_ms` is the clock when the marker is read, `write_ms`
/// when the fresh marker is written.
pub proof fn lemma_stale_fetches_and_stores(
    text: Seq<char>,
    ms: i64,
    now_ms: i64,
    bytes: Seq<u8>,
    write_ms: i64,
)
    ensures
        (marker_millis_of(text) == Some(ms) && stale(now_ms, ms)) ==> {
            let read = EventModel::MarkerRead(Some(text));
            &&& next_action(PhaseModel::AwaitMarker, read, now_ms) == ActionModel::FetchOrigin
            &&& next_phase(PhaseModel::AwaitMarker, read, now_ms) == PhaseModel::AwaitFetch
        },
        next_action(PhaseModel::AwaitFetch, EventModel::FetchDone(Some(bytes)), write_ms)
            == ActionModel::WriteArtifact(bytes),
        next_phase(PhaseModel::AwaitFetch, EventModel::FetchDone(Some(bytes)), write_ms)
            == PhaseModel::StoringArtifact(bytes),
        next_action(PhaseModel::StoringArtifact(bytes), EventModel::WriteDone(true), write_ms)
            == ActionModel::WriteMarker(marker_text_of(write_ms)),
        next_phase(PhaseModel::StoringArtifact(bytes), EventModel::WriteDone(true), write_ms)
            == PhaseModel::StoringMarker(bytes),
        next_action(PhaseModel::StoringMarker(bytes), EventModel::WriteDone(true), write_ms)
            == ActionModel::Respond(bytes),
        next_phase(PhaseModel::StoringMarker(bytes), EventModel::WriteDone(true), write_ms)
            == PhaseModel::Done,
{
}

/// With the marker absent, the first request seeds the freshness store,
/// fetches from the origin and persists marker and artifact; a second
/// request within the TTL then reads the marker just written, judges it
/// fresh, and serves from the content store without another fetch. The
/// second half holds whenever the marker text read back denotes the write
/// time, which `encode_marker` guarantees of the text the first request
/// wrote.
pub proof fn lemma_absent_marker_fetches_once(
    now_ms: i64,
    bytes: Seq<u8>,
    write_ms: i64,
    later_ms: i64,
)
    ensures
        next_action(PhaseModel::AwaitMarker, EventModel::MarkerRead(None), now_ms)
            == ActionModel::WriteMarker(marker_text_of(SEED_MS)),
        next_phase(PhaseModel::AwaitMarker, EventModel::MarkerRead(None), now_ms)
            == PhaseModel::SeedingMarker,
        next_action(PhaseModel::SeedingMarker, EventModel::WriteDone(true), now_ms)
            == ActionModel::FetchOrigin,
        next_phase(PhaseModel::SeedingMarker, EventModel::WriteDone(true), now_ms)
            == PhaseModel::AwaitFetch,
        next_action(PhaseModel::AwaitFetch, EventModel::FetchDone(Some(bytes)), write_ms)
            == ActionModel::WriteArtifact(bytes),
        next_action(PhaseModel::StoringArtifact(bytes), EventModel::WriteDone(true), write_ms)
            == ActionModel::WriteMarker(marker_text_of(write_ms)),
        next_action(PhaseModel::StoringMarker(bytes), EventModel::WriteDone(true), write_ms)
            == ActionModel::Respond(bytes),
        (marker_millis_of(marker_text_of(write_ms)) == Some(write_ms)
            && !stale(later_ms, write_ms)) ==> {
            let reread = EventModel::MarkerRead(Some(marker_text_of(write_ms)));
            &&& next_action(PhaseModel::AwaitMarker, reread, later_ms)
                == ActionModel::ReadArtifact
            &&& next_phase(PhaseModel::AwaitMarker, reread, later_ms)
                == PhaseModel::AwaitArtifact
            &&& next_action(
                PhaseModel::AwaitArtifact,
                EventModel::ArtifactRead(Some(bytes)),
                later_ms,
            ) == ActionModel::Respond(bytes)
        },
{
}

/// A request that finds a fresh marker but no readable artifact does not
/// fail: it falls through to the fetch path, and with the origin and the
/// stores answering, it ends by answering the fetched bytes.
pub proof fn lemma_missing_artifact_falls_back(
    text: Seq<char>,
    ms: i64,
    now_ms: i64,
    bytes: Seq<u8>,
)
    ensures
        (marker_millis_of(text) == Some(ms) && !stale(now_ms, ms)) ==> {
            let read = EventModel::MarkerRead(Some(text));
            &&& next_action(PhaseModel::AwaitMarker, read, now_ms) == ActionModel::ReadArtifact
            &&& next_phase(PhaseModel::AwaitMarker, read, now_ms) == PhaseModel::AwaitArtifact
        },
        next_action(PhaseModel::AwaitArtifact, EventModel::ArtifactRead(None), now_ms)
            == ActionModel::FetchOrigin,
        next_phase(PhaseModel::AwaitArtifact, EventModel::ArtifactRead(None), now_ms)
            == PhaseModel::AwaitFetch,
        next_action(PhaseModel::AwaitFetch, EventModel::FetchDone(Some(bytes)), now_ms)
            == ActionModel::WriteArtifact(bytes),
        next_phase(PhaseModel::AwaitFetch, EventModel::FetchDone(Some(bytes)), now_ms)
            == PhaseModel::StoringArtifact(bytes),
        next_action(PhaseModel::StoringMarker(bytes), EventModel::WriteDone(true), now_ms)
            == ActionModel::Respond(bytes),
{
}

/// A failed origin fetch is fatal and clean: the orchestrator answers with
/// the fetch error, and the failed request asks for no store write then or
/// ever after, so neither store is touched on its account.
pub proof fn lemma_fetch_failure_is_fatal(now_ms: i64)
    ensures
        next_action(PhaseModel::AwaitFetch, EventModel::FetchDone(None), now_ms)
            == ActionModel::Fail(CacheError::Fetch),
        next_phase(PhaseModel::AwaitFetch, EventModel::FetchDone(None), now_ms)
            == PhaseModel::Failed,
        forall|ev: EventModel| !accepts(PhaseModel::Failed, ev),
{
}

} // verus!
