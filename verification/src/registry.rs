//! Generic rotate-and-broadcast registry for versioned binary artifacts.
//!
//! A registry holds one current artifact, regenerates it on a fixed
//! rotation interval, and fans each new version out to every live
//! subscriber through a bounded backlog.  Versions start at 1 and increase
//! by exactly 1 per rotation, never reused.  A subscriber receives only
//! artifacts published after it subscribed; a slow subscriber whose backlog
//! is full silently loses the oldest buffered update rather than blocking
//! the producer.

use vstd::prelude::*;
use crate::hashing::{hex_of, sha256_of, sha256_digest, hex_encode};
use crate::strutil::str_eq;
use crate::MAX_TIME_MS;

verus! {

/// One versioned, hashed artifact.
#[derive(Debug)]
pub struct VersionedArtifact {
    /// Monotonically increasing version, starting at 1.
    pub version: u64,
    /// The payload bytes.
    pub payload: Vec<u8>,
    /// Lowercase hex of the payload's SHA-256 digest.
    pub content_hash: String,
    /// When the artifact was generated.
    pub generated_at_ms: i64,
    /// When it expires (one rotation interval later).
    pub expires_at_ms: i64,
}

/// View-level equality of two artifacts.
pub open spec fn artifact_views_eq(a: VersionedArtifact, b: VersionedArtifact) -> bool {
    &&& a.version == b.version
    &&& a.payload@ == b.payload@
    &&& a.content_hash@ == b.content_hash@
    &&& a.generated_at_ms == b.generated_at_ms
    &&& a.expires_at_ms == b.expires_at_ms
}

impl VersionedArtifact {
    /// A field-for-field copy.
    pub fn snapshot(&self) -> (r: VersionedArtifact)
        ensures
            artifact_views_eq(*self, r),
    {
        let mut payload: Vec<u8> = Vec::new();
        payload.extend_from_slice(self.payload.as_slice());
        proof {
            assert(payload@ =~= self.payload@);
        }
        VersionedArtifact {
            version: self.version,
            payload,
            content_hash: self.content_hash.clone(),
            generated_at_ms: self.generated_at_ms,
            expires_at_ms: self.expires_at_ms,
        }
    }
}

/// A deterministic payload generator: the payload is a function of the
/// version alone.
pub trait ArtifactGenerator {
    /// The payload a version owes.
    spec fn payload_spec(&self, version: u64) -> Seq<u8>;

    /// Generate the payload of a version.
    fn generate_payload(&self, version: u64) -> (r: Vec<u8>)
        ensures
            r@ == self.payload_spec(version),
    ;
}

/// One subscriber's bounded backlog.
#[derive(Debug)]
pub struct SubscriberBuffer {
    /// The subscription's handle.
    pub id: u64,
    /// The current version at subscription time; the subscriber never
    /// receives an artifact at or below it.
    pub since_version: u64,
    /// Buffered artifacts, oldest first.
    pub buffer: Vec<VersionedArtifact>,
}

/// A registry instance: one current artifact, a rotation clock, and the
/// live subscriptions.
pub struct ArtifactRegistry<G> {
    /// The deterministic payload generator.
    pub generator: G,
    /// Rotation interval in milliseconds.
    pub rotation_interval_ms: i64,
    /// How many updates a subscriber may buffer before the oldest is
    /// dropped.
    pub backlog_capacity: usize,
    /// The current artifact.
    pub current: VersionedArtifact,
    /// Live subscriptions.
    pub subscribers: Vec<SubscriberBuffer>,
    /// The next unused subscription handle.
    pub next_subscriber_id: u64,
}

impl<G: ArtifactGenerator> ArtifactRegistry<G> {
    /// Whether an artifact is what the generator owes for its version.
    pub open spec fn artifact_ok(self, a: VersionedArtifact) -> bool {
        &&& a.payload@ == self.generator.payload_spec(a.version)
        &&& a.content_hash@ == hex_of(sha256_of(a.payload@))
        &&& 0 <= a.generated_at_ms <= a.expires_at_ms <= MAX_TIME_MS
    }

    /// One subscriber's invariant: a backlog within capacity holding
    /// consecutive versions, all newer than the subscription point, ending
    /// at the current version when non-empty.
    pub open spec fn subscriber_ok(self, sb: SubscriberBuffer) -> bool {
        &&& sb.buffer@.len() <= self.backlog_capacity
        &&& forall|k: int|
            0 <= k < sb.buffer@.len() ==> self.artifact_ok(#[trigger] sb.buffer@[k])
        &&& forall|k: int|
            0 <= k < sb.buffer@.len() - 1 ==> (#[trigger] sb.buffer@[k].version) + 1 == sb.buffer@[
                k + 1
            ].version
        &&& forall|k: int|
            0 <= k < sb.buffer@.len() ==> (#[trigger] sb.buffer@[k].version) > sb.since_version
        &&& sb.buffer@.len() > 0 ==> sb.buffer@.last().version == self.current.version
        &&& sb.since_version <= self.current.version
    }

    /// The registry's invariant.
    pub open spec fn wf(self) -> bool {
        &&& self.current.version >= 1
        &&& self.artifact_ok(self.current)
        &&& self.backlog_capacity >= 1
        &&& 0 <= self.rotation_interval_ms
        &&& forall|i: int, j: int|
            0 <= i < j < self.subscribers@.len() ==> (#[trigger] self.subscribers@[i].id)
                != (#[trigger] self.subscribers@[j].id)
        &&& forall|i: int|
            0 <= i < self.subscribers@.len() ==> (#[trigger] self.subscribers@[i].id)
                < self.next_subscriber_id
        &&& forall|i: int|
            0 <= i < self.subscribers@.len() ==> self.subscriber_ok(
                #[trigger] self.subscribers@[i],
            )
    }

    /// Build the artifact a version owes at `now_ms`.
    fn make_artifact(&self, version: u64, now_ms: i64) -> (r: VersionedArtifact)
        requires
            0 <= now_ms,
            now_ms + self.rotation_interval_ms <= MAX_TIME_MS,
            0 <= self.rotation_interval_ms,
        ensures
            r.version == version,
            r.payload@ == self.generator.payload_spec(version),
            r.content_hash@ == hex_of(sha256_of(r.payload@)),
            r.generated_at_ms == now_ms,
            r.expires_at_ms == now_ms + self.rotation_interval_ms,
    {
        let payload = self.generator.generate_payload(version);
        let content_hash = hex_encode(sha256_digest(payload.as_slice()).as_slice());
        VersionedArtifact {
            version,
            payload,
            content_hash,
            generated_at_ms: now_ms,
            expires_at_ms: now_ms + self.rotation_interval_ms,
        }
    }

    /// Set up a registry with version 1 generated immediately and no
    /// subscribers.
    pub fn new(generator: G, rotation_interval_ms: i64, backlog_capacity: usize, now_ms: i64) -> (r:
        ArtifactRegistry<G>)
        requires
            0 <= now_ms,
            0 <= rotation_interval_ms,
            now_ms + rotation_interval_ms <= MAX_TIME_MS,
            backlog_capacity >= 1,
        ensures
            r.wf(),
            r.current.version == 1,
            r.current.payload@ == r.generator.payload_spec(1),
            r.current.generated_at_ms == now_ms,
            r.current.expires_at_ms == now_ms + rotation_interval_ms,
            r.subscribers@.len() == 0,
            r.rotation_interval_ms == rotation_interval_ms,
            r.backlog_capacity == backlog_capacity,
            r.next_subscriber_id == 0,
    {
        let payload = generator.generate_payload(1);
        let content_hash = hex_encode(sha256_digest(payload.as_slice()).as_slice());
        let current = VersionedArtifact {
            version: 1,
            payload,
            content_hash,
            generated_at_ms: now_ms,
            expires_at_ms: now_ms + rotation_interval_ms,
        };
        ArtifactRegistry {
            generator,
            rotation_interval_ms,
            backlog_capacity,
            current,
            subscribers: Vec::new(),
            next_subscriber_id: 0,
        }
    }

    /// What one rotation does to one subscriber: the new artifact is
    /// appended; if the backlog was full, the oldest buffered update is
    /// dropped first.
    pub open spec fn published_to(
        osb: SubscriberBuffer,
        nsb: SubscriberBuffer,
        capacity: usize,
        a: VersionedArtifact,
    ) -> bool {
        &&& nsb.id == osb.id
        &&& nsb.since_version == osb.since_version
        &&& nsb.buffer@.len() > 0
        &&& artifact_views_eq(nsb.buffer@.last(), a)
        &&& if osb.buffer@.len() < capacity {
            &&& nsb.buffer@.len() == osb.buffer@.len() + 1
            &&& forall|k: int|
                0 <= k < osb.buffer@.len() ==> (#[trigger] nsb.buffer@[k]) == osb.buffer@[k]
        } else {
            &&& nsb.buffer@.len() == osb.buffer@.len()
            &&& forall|k: int|
                0 <= k < osb.buffer@.len() - 1 ==> (#[trigger] nsb.buffer@[k]) == osb.buffer@[k
                    + 1]
        }
    }

    /// Generate the next version, swap it in as current, and publish it to
    /// every live subscription.  A full backlog loses its oldest buffered
    /// update; a rotation with zero subscribers is a normal, silent no-op.
    pub fn rotate(&mut self, now_ms: i64)
        requires
            old(self).wf(),
            old(self).current.version < u64::MAX,
            0 <= now_ms,
            now_ms + old(self).rotation_interval_ms <= MAX_TIME_MS,
        ensures
            final(self).wf(),
            final(self).current.version == old(self).current.version + 1,
            final(self).current.payload@ == final(self).generator.payload_spec(
                final(self).current.version,
            ),
            final(self).current.generated_at_ms == now_ms,
            final(self).current.expires_at_ms == now_ms + old(self).rotation_interval_ms,
            final(self).generator == old(self).generator,
            final(self).rotation_interval_ms == old(self).rotation_interval_ms,
            final(self).backlog_capacity == old(self).backlog_capacity,
            final(self).next_subscriber_id == old(self).next_subscriber_id,
            final(self).subscribers@.len() == old(self).subscribers@.len(),
            forall|i: int|
                0 <= i < old(self).subscribers@.len() ==> Self::published_to(
                    old(self).subscribers@[i],
                    #[trigger] final(self).subscribers@[i],
                    old(self).backlog_capacity,
                    final(self).current,
                ),
    {
        let new_version = self.current.version + 1;
        let artifact = self.make_artifact(new_version, now_ms);
        let cap = self.backlog_capacity;
        let n = self.subscribers.len();
        let mut i: usize = 0;
        while i < n
            invariant
                old(self).wf(),
                old(self).current.version < u64::MAX,
                n == self.subscribers@.len(),
                n == old(self).subscribers@.len(),
                i <= n,
                cap == old(self).backlog_capacity,
                self.generator == old(self).generator,
                self.rotation_interval_ms == old(self).rotation_interval_ms,
                self.backlog_capacity == old(self).backlog_capacity,
                self.next_subscriber_id == old(self).next_subscriber_id,
                self.current == old(self).current,
                artifact.version == old(self).current.version + 1,
                artifact.payload@ == old(self).generator.payload_spec(artifact.version),
                artifact.content_hash@ == hex_of(sha256_of(artifact.payload@)),
                0 <= artifact.generated_at_ms <= artifact.expires_at_ms <= MAX_TIME_MS,
                forall|s: int|
                    i <= s < n ==> (#[trigger] self.subscribers@[s]) == old(self).subscribers@[s],
                forall|s: int|
                    0 <= s < i ==> Self::published_to(
                        old(self).subscribers@[s],
                        #[trigger] self.subscribers@[s],
                        cap,
                        artifact,
                    ),
            decreases n - i,
        {
            let update = artifact.snapshot();
            let sbref = vstd::std_specs::vec::vec_index_mut(&mut self.subscribers, i);
            if sbref.buffer.len() >= cap {
                sbref.buffer.remove(0);
            }
            sbref.buffer.push(update);
            i = i + 1;
        }
        self.current = artifact;
    }

    /// The current artifact; if it is past its own expiry (cold start or
    /// stalled rotation task), a rotation is performed synchronously first,
    /// so a reader never sees a stale artifact (self-healing read).
    pub fn get(&mut self, now_ms: i64) -> (r: VersionedArtifact)
        requires
            old(self).wf(),
            old(self).current.version < u64::MAX,
            0 <= now_ms,
            now_ms + old(self).rotation_interval_ms <= MAX_TIME_MS,
        ensures
            final(self).wf(),
            artifact_views_eq(r, final(self).current),
            final(self).generator == old(self).generator,
            final(self).rotation_interval_ms == old(self).rotation_interval_ms,
            final(self).backlog_capacity == old(self).backlog_capacity,
            final(self).next_subscriber_id == old(self).next_subscriber_id,
            final(self).subscribers@.len() == old(self).subscribers@.len(),
            now_ms < old(self).current.expires_at_ms ==> *final(self) == *old(self),
            // Self-healing: past its expiry the artifact is regenerated
            // before being returned, so a reader never sees a stale one.
            now_ms >= old(self).current.expires_at_ms ==> {
                &&& final(self).current.version == old(self).current.version + 1
                &&& final(self).current.generated_at_ms == now_ms
                &&& final(self).current.expires_at_ms == now_ms + old(self).rotation_interval_ms
            },
            old(self).rotation_interval_ms > 0 ==> r.expires_at_ms > now_ms,
    {
        if now_ms >= self.current.expires_at_ms {
            self.rotate(now_ms);
        }
        self.current.snapshot()
    }

    /// Whether some subscription carries the handle `id`.
    pub open spec fn has_subscriber(self, id: u64) -> bool {
        exists|i: int|
            0 <= i < self.subscribers@.len() && (#[trigger] self.subscribers@[i].id) == id
    }

    /// The index of the subscription carrying the handle `id`.
    pub open spec fn subscriber_index(self, id: u64) -> int {
        choose|i: int|
            0 <= i < self.subscribers@.len() && (#[trigger] self.subscribers@[i].id) == id
    }

    /// Find the index of a subscription handle.
    fn find_subscriber(&self, id: u64) -> (r: Option<usize>)
        requires
            self.wf(),
        ensures
            match r {
                Some(i) => {
                    &&& i < self.subscribers@.len()
                    &&& self.subscribers@[i as int].id == id
                    &&& self.has_subscriber(id)
                    &&& self.subscriber_index(id) == i
                },
                None => !self.has_subscriber(id),
            },
    {
        let n = self.subscribers.len();
        let mut i: usize = 0;
        while i < n
            invariant
                self.wf(),
                n == self.subscribers@.len(),
                i <= n,
                forall|j: int| 0 <= j < i ==> (#[trigger] self.subscribers@[j].id) != id,
            decreases n - i,
        {
            if self.subscribers[i].id == id {
                proof {
                    assert(self.has_subscriber(id));
                    let k = self.subscriber_index(id);
                    assert(self.subscribers@[k].id == id);
                    assert(k == i);
                }
                return Some(i);
            }
            i = i + 1;
        }
        None
    }

    /// Open a subscription.  The handle will receive exactly one
    /// notification per future rotation, starting from the next rotation;
    /// it never replays history.
    pub fn subscribe(&mut self) -> (r: u64)
        requires
            old(self).wf(),
            old(self).next_subscriber_id < u64::MAX,
        ensures
            final(self).wf(),
            r == old(self).next_subscriber_id,
            final(self).next_subscriber_id == old(self).next_subscriber_id + 1,
            final(self).current == old(self).current,
            final(self).generator == old(self).generator,
            final(self).rotation_interval_ms == old(self).rotation_interval_ms,
            final(self).backlog_capacity == old(self).backlog_capacity,
            final(self).subscribers@.len() == old(self).subscribers@.len() + 1,
            forall|j: int|
                0 <= j < old(self).subscribers@.len() ==> (#[trigger] final(self).subscribers@[j])
                    == old(self).subscribers@[j],
            final(self).subscribers@.last().id == r,
            final(self).subscribers@.last().since_version == old(self).current.version,
            final(self).subscribers@.last().buffer@.len() == 0,
            final(self).has_subscriber(r),
    {
        let id = self.next_subscriber_id;
        self.next_subscriber_id = id + 1;
        let sb = SubscriberBuffer { id, since_version: self.current.version, buffer: Vec::new() };
        self.subscribers.push(sb);
        proof {
            assert(self.subscribers@.last().id == id);
            assert(self.has_subscriber(id));
        }
        id
    }

    /// Take the oldest buffered update of a subscription, if any.
    pub fn poll(&mut self, id: u64) -> (r: Option<VersionedArtifact>)
        requires
            old(self).wf(),
        ensures
            final(self).wf(),
            final(self).current == old(self).current,
            final(self).generator == old(self).generator,
            final(self).rotation_interval_ms == old(self).rotation_interval_ms,
            final(self).backlog_capacity == old(self).backlog_capacity,
            final(self).next_subscriber_id == old(self).next_subscriber_id,
            final(self).subscribers@.len() == old(self).subscribers@.len(),
            !old(self).has_subscriber(id) ==> r is None && *final(self) == *old(self),
            old(self).has_subscriber(id) ==> {
                let i = old(self).subscriber_index(id);
                let osb = old(self).subscribers@[i];
                &&& forall|j: int|
                    0 <= j < old(self).subscribers@.len() && j != i
                        ==> (#[trigger] final(self).subscribers@[j]) == old(self).subscribers@[j]
                &&& final(self).subscribers@[i].id == osb.id
                &&& final(self).subscribers@[i].since_version == osb.since_version
                &&& if osb.buffer@.len() == 0 {
                    r is None && final(self).subscribers@[i] == osb
                } else {
                    &&& r matches Some(a)
                    &&& artifact_views_eq(r->Some_0, osb.buffer@.first())
                    &&& final(self).subscribers@[i].buffer@ == osb.buffer@.drop_first()
                }
            },
    {
        let idx = match self.find_subscriber(id) {
            Some(i) => i,
            None => {
                return None;
            },
        };
        let sbref = vstd::std_specs::vec::vec_index_mut(&mut self.subscribers, idx);
        if sbref.buffer.len() == 0 {
            return None;
        }
        let a = sbref.buffer.remove(0);
        proof {
            assert(old(self).subscribers@[idx as int].buffer@.drop_first()
                =~= self.subscribers@[idx as int].buffer@);
        }
        Some(a)
    }

    /// Drop a subscription; its handle stops receiving rotations.
    pub fn unsubscribe(&mut self, id: u64)
        requires
            old(self).wf(),
        ensures
            final(self).wf(),
            final(self).current == old(self).current,
            final(self).generator == old(self).generator,
            final(self).rotation_interval_ms == old(self).rotation_interval_ms,
            final(self).backlog_capacity == old(self).backlog_capacity,
            final(self).next_subscriber_id == old(self).next_subscriber_id,
            !final(self).has_subscriber(id),
            !old(self).has_subscriber(id) ==> *final(self) == *old(self),
            old(self).has_subscriber(id) ==> final(self).subscribers@ == old(
                self,
            ).subscribers@.remove(old(self).subscriber_index(id)),
    {
        let idx = match self.find_subscriber(id) {
            Some(i) => i,
            None => {
                return ;
            },
        };
        self.subscribers.remove(idx);
        proof {
            assert forall|i: int|
                0 <= i < self.subscribers@.len() implies (#[trigger] self.subscribers@[i].id)
                != id by {
                if i < idx {
                    assert(self.subscribers@[i] == old(self).subscribers@[i]);
                } else {
                    assert(self.subscribers@[i] == old(self).subscribers@[i + 1]);
                }
            }
        }
    }

    /// Answer whether a cached copy is still exactly current, and whether
    /// the caller needs to update: `is_valid` holds iff both version and
    /// hash match the current artifact exactly, and `needs_update` holds
    /// iff the claimed version is strictly behind the latest.
    pub fn validate_version(&self, claimed_version: u64, claimed_hash: &str) -> (r: VersionCheck)
        ensures
            r.is_valid <==> (claimed_version == self.current.version && claimed_hash@
                == self.current.content_hash@),
            r.needs_update <==> claimed_version < self.current.version,
            r.latest_version == self.current.version,
    {
        let hash_matches = str_eq(claimed_hash, self.current.content_hash.as_str());
        VersionCheck {
            is_valid: claimed_version == self.current.version && hash_matches,
            needs_update: claimed_version < self.current.version,
            latest_version: self.current.version,
        }
    }
}

/// The answer to a version validation.
#[derive(Clone, Copy, Debug, PartialEq, Eq, Structural)]
pub struct VersionCheck {
    /// The cached copy matches the current artifact exactly.
    pub is_valid: bool,
    /// The cached version is strictly behind the latest.
    pub needs_update: bool,
    /// The latest version.
    pub latest_version: u64,
}

/// In a well-formed registry, every subscriber's backlog holds strictly
/// consecutive versions: what a subscriber observes increases by exactly 1
/// per update, with no gaps and no repeats.
pub proof fn lemma_backlog_consecutive<G: ArtifactGenerator>(
    reg: ArtifactRegistry<G>,
    i: int,
    k: int,
)
    requires
        reg.wf(),
        0 <= i < reg.subscribers@.len(),
        0 <= k < reg.subscribers@[i].buffer@.len() - 1,
    ensures
        reg.subscribers@[i].buffer@[k].version + 1 == reg.subscribers@[i].buffer@[k + 1].version,
{
}

/// A subscriber never holds an artifact from before its subscription: every
/// buffered version is strictly newer than the version that was current
/// when the subscription was opened, so missed history is never replayed.
pub proof fn lemma_no_replay<G: ArtifactGenerator>(reg: ArtifactRegistry<G>, i: int, k: int)
    requires
        reg.wf(),
        0 <= i < reg.subscribers@.len(),
        0 <= k < reg.subscribers@[i].buffer@.len(),
    ensures
        reg.subscribers@[i].buffer@[k].version > reg.subscribers@[i].since_version,
{
}

} // verus!
