//! The device registry: the one owner of the mapping from device identifier
//! to device session.
//!
//! All creation, lookup, and teardown of sessions goes through here. The
//! registry also remembers every identifier it ever accepted, so that an
//! identifier handed out once is never handed out again within one process
//! lifetime, whatever the identifier generator returns.
use vstd::prelude::*;

use vstd::hash_map::StringHashMap;

use crate::client::SpotifyClient;

verus! {

/// Maps device identifiers to live sessions and remembers every identifier
/// ever registered.
pub struct DeviceRegistry {
    devices: StringHashMap<SpotifyClient>,
    issued: StringHashMap<()>,
}

impl DeviceRegistry {
    /// The live sessions, by device identifier.
    pub closed spec fn dev_map(&self) -> Map<Seq<char>, SpotifyClient> {
        self.devices@
    }

    /// Every identifier ever accepted by [`register`](Self::register),
    /// including those whose sessions were since removed.
    pub closed spec fn issued_ids(&self) -> Set<Seq<char>> {
        self.issued@.dom()
    }

    /// Well-formedness: a live session's identifier was issued.
    pub open spec fn wf(&self) -> bool {
        self.dev_map().dom().subset_of(self.issued_ids())
    }

    pub fn new() -> (r: DeviceRegistry)
        ensures
            r.dev_map() == Map::<Seq<char>, SpotifyClient>::empty(),
            r.issued_ids() == Set::<Seq<char>>::empty(),
            r.wf(),
    {
        DeviceRegistry { devices: StringHashMap::new(), issued: StringHashMap::new() }
    }

    /// True when the identifier was accepted at some point in this process's
    /// lifetime, whether or not its session is still live.
    pub fn is_issued(&self, device_id: &str) -> (r: bool)
        ensures
            r == self.issued_ids().contains(device_id@),
    {
        self.issued.contains_key(device_id)
    }

    /// Admits a new session under `device_id`, provided that identifier was
    /// never issued before: a stale identifier is refused and nothing
    /// changes. An accepted identifier is recorded as issued for the rest of
    /// the process's lifetime.
    pub fn register(&mut self, device_id: String, client: SpotifyClient) -> (r: bool)
        requires
            old(self).wf(),
        ensures
            final(self).wf(),
            r == !old(self).issued_ids().contains(device_id@),
            r ==> final(self).dev_map() == old(self).dev_map().insert(device_id@, client)
                && final(self).issued_ids() == old(self).issued_ids().insert(device_id@),
            !r ==> final(self).dev_map() == old(self).dev_map() && final(self).issued_ids()
                == old(self).issued_ids(),
    {
        if self.issued.contains_key(device_id.as_str()) {
            false
        } else {
            self.issued.insert(device_id.clone(), ());
            self.devices.insert(device_id, client);
            true
        }
    }

    /// The live session under `device_id`, if there is one.
    pub fn get(&self, device_id: &str) -> (r: Option<&SpotifyClient>)
        ensures
            match r {
                Some(c) => self.dev_map().contains_key(device_id@) && *c == self.dev_map().index(
                    device_id@,
                ),
                None => !self.dev_map().contains_key(device_id@),
            },
    {
        self.devices.get(device_id)
    }

    /// Tears the session under `device_id` out of the registry, reporting
    /// whether one was there. Removing an absent identifier is a no-op, not
    /// an error; the identifier stays issued either way.
    pub fn remove(&mut self, device_id: &str) -> (r: bool)
        requires
            old(self).wf(),
        ensures
            final(self).wf(),
            r == old(self).dev_map().contains_key(device_id@),
            final(self).dev_map() == old(self).dev_map().remove(device_id@),
            !r ==> final(self).dev_map() == old(self).dev_map(),
            final(self).issued_ids() == old(self).issued_ids(),
    {
        let was_present = self.devices.contains_key(device_id);
        self.devices.remove(device_id);
        proof {
            if !was_present {
                assert(self.dev_map() =~= old(self).dev_map());
            }
            assert(self.dev_map().dom().subset_of(self.issued_ids()));
        }
        was_present
    }

    /// Freshness of created devices: [`register`](Self::register) accepts an
    /// identifier only when it was never issued, and records it as issued,
    /// so two successive accepted registrations never carry the same
    /// identifier — a created device's identifier was never returned before
    /// in the process's lifetime.
    pub proof fn lemma_issued_ids_distinct(issued: Set<Seq<char>>, first: Seq<char>, second: Seq<char>)
        requires
            !issued.contains(first),
            !issued.insert(first).contains(second),
        ensures
            second != first,
    {
    }

    /// How many sessions are live.
    pub fn device_count(&self) -> (r: usize)
        ensures
            r == self.dev_map().len(),
    {
        self.devices.len()
    }
}

} // verus!
