//! In-memory registry of observed devices: exactly one record per device
//! identity, looked up by exact identity-string match. The registry owns
//! update/insert semantics: a first sighting creates a record with both
//! publication timestamps at 0 ("never"), a later sighting overwrites the
//! decoded fields in place and preserves only the identity and the
//! timestamps. Records are never destroyed; the registry lives for the
//! process lifetime.

use vstd::prelude::*;

use crate::broodminder_device::BroodminderDevice;
use crate::broodminder_device::MIN_PAYLOAD_LEN;
use crate::broodminder_device::MODEL_SCALE;
use crate::broodminder_device::MODEL_TEMPERATURE;
use crate::broodminder_device::reading_decodes;
use crate::broodminder_device::same_reading_and_identity;
use crate::broodminder_device::spec_config_count;
use crate::messages::ConfigMessage;
use crate::messages::StateMessage;
use crate::messages::is_temp_config;
use crate::messages::is_weight_config;
use crate::messages::spec_state_topic;

verus! {

/// Keyed store of per-device records. The key of a record is its
/// `device_id`; well-formedness keeps the keys distinct, so each identity
/// has exactly one record at any time.
pub struct Registry {
    records: Vec<BroodminderDevice>,
}

impl Registry {
    /// How many devices have been sighted so far.
    pub closed spec fn spec_len(self) -> nat {
        self.records@.len()
    }

    /// A record for this identity exists.
    pub closed spec fn contains_id(self, id: Seq<char>) -> bool {
        exists|i: int|
            0 <= i < self.records@.len() && self.records@[i].device_id@ == id
    }

    /// The position of the record for this identity; meaningful only when
    /// `contains_id` holds and the registry is well-formed.
    pub closed spec fn spec_index_of(self, id: Seq<char>) -> int {
        choose|i: int|
            0 <= i < self.records@.len() && self.records@[i].device_id@ == id
    }

    /// The record for this identity; meaningful only when `contains_id`
    /// holds and the registry is well-formed.
    pub closed spec fn spec_get(self, id: Seq<char>) -> BroodminderDevice {
        self.records@[self.spec_index_of(id)]
    }

    /// Exactly one record per identity, and every record well-formed.
    pub closed spec fn wf(self) -> bool {
        &&& forall|i: int, j: int|
            0 <= i < j < self.records@.len()
                ==> (#[trigger] self.records@[i].device_id@)
                != (#[trigger] self.records@[j].device_id@)
        &&& forall|i: int|
            0 <= i < self.records@.len() ==> (#[trigger] self.records@[i]).wf()
    }

    /// In a well-formed registry, a position whose record carries `id` is
    /// the position `spec_index_of` denotes, and its record is `spec_get`.
    proof fn lemma_position(self, id: Seq<char>, i: int)
        requires
            self.wf(),
            0 <= i < self.records@.len(),
            self.records@[i].device_id@ == id,
        ensures
            self.contains_id(id),
            self.spec_index_of(id) == i,
            self.spec_get(id) == self.records@[i],
    {
        assert(self.contains_id(id));
        let k = self.spec_index_of(id);
        assert(0 <= k < self.records@.len() && self.records@[k].device_id@ == id);
        if k < i {
            assert(self.records@[k].device_id@ != self.records@[i].device_id@);
        } else if i < k {
            assert(self.records@[i].device_id@ != self.records@[k].device_id@);
        }
    }

    /// An empty registry: no device has been sighted.
    pub fn new() -> (r: Registry)
        ensures
            r.wf(),
            r.spec_len() == 0,
            forall|id: Seq<char>| !r.contains_id(id),
    {
        Registry { records: Vec::new() }
    }

    /// How many devices have been sighted so far.
    pub fn len(&self) -> (n: usize)
        ensures
            n == self.spec_len(),
    {
        self.records.len()
    }

    /// Look the record for an identity up, by exact match.
    pub fn get(&self, device_id: &String) -> (r: Option<&BroodminderDevice>)
        requires
            self.wf(),
        ensures
            r is Some <==> self.contains_id(device_id@),
            r matches Some(d) ==> *d == self.spec_get(device_id@),
    {
        let n = self.records.len();
        let mut i: usize = 0;
        while i < n
            invariant
                self.wf(),
                n == self.records@.len(),
                i <= n,
                forall|j: int| 0 <= j < i ==> self.records@[j].device_id@ != device_id@,
            decreases n - i,
        {
            if self.records[i].device_id == *device_id {
                proof {
                    self.lemma_position(device_id@, i as int);
                }
                return Some(&self.records[i]);
            }
            i = i + 1;
        }
        None
    }

    /// Insert or update the record for an identity from a fresh payload.
    ///
    /// On first sighting, a record decoded from the payload is created with
    /// the given identity and both publication timestamps at 0; on a later
    /// sighting, every decoded field of the existing record is overwritten
    /// from the payload and its identity and timestamps are preserved.
    /// Records of other identities are untouched. The returned flag says
    /// whether this was a first sighting; it is for logging only and must
    /// not gate publication.
    pub fn upsert(&mut self, device_id: &String, data: &Vec<u8>) -> (was_new: bool)
        requires
            old(self).wf(),
            data@.len() >= MIN_PAYLOAD_LEN,
        ensures
            final(self).wf(),
            was_new <==> !old(self).contains_id(device_id@),
            final(self).contains_id(device_id@),
            was_new ==> final(self).spec_len() == old(self).spec_len() + 1,
            !was_new ==> final(self).spec_len() == old(self).spec_len(),
            ({
                let rec = final(self).spec_get(device_id@);
                &&& rec.device_id@ == device_id@
                &&& reading_decodes(data@, rec)
                &&& (was_new ==> {
                    &&& rec.last_config_sent_ms == 0
                    &&& rec.last_state_sent_ms == 0
                })
                &&& (!was_new ==> {
                    let prev = old(self).spec_get(device_id@);
                    &&& rec.device_id == prev.device_id
                    &&& rec.last_config_sent_ms == prev.last_config_sent_ms
                    &&& rec.last_state_sent_ms == prev.last_state_sent_ms
                })
            }),
            forall|other: Seq<char>|
                other != device_id@
                    ==> (final(self).contains_id(other) <==> old(self).contains_id(other)),
            forall|other: Seq<char>|
                other != device_id@ && old(self).contains_id(other)
                    ==> final(self).spec_get(other) == old(self).spec_get(other),
    {
        let ghost prior = *self;
        let n = self.records.len();
        let mut i: usize = 0;
        while i < n
            invariant
                *self == prior,
                prior == *old(self),
                prior.wf(),
                data@.len() >= MIN_PAYLOAD_LEN,
                n == self.records@.len(),
                i <= n,
                forall|j: int| 0 <= j < i ==> self.records@[j].device_id@ != device_id@,
            decreases n - i,
        {
            if self.records[i].device_id == *device_id {
                proof {
                    prior.lemma_position(device_id@, i as int);
                }
                self.records[i].update(data);
                proof {
                    self.lemma_upsert_frame(prior, device_id@, i as int);
                }
                return false;
            }
            i = i + 1;
        }
        let mut rec = BroodminderDevice::build_broodminder_device(data);
        rec.device_id = device_id.clone();
        self.records.push(rec);
        proof {
            self.lemma_upsert_frame(prior, device_id@, n as int);
        }
        true
    }

    /// Evaluate the publication policy for the record of an identity:
    /// the configuration window first, then the state window, each against
    /// `now_ms`. The record's timestamps advance exactly for the windows
    /// whose evaluation ran; its reading, identity, and every other record
    /// are untouched. The returned pair carries the configuration messages
    /// (when that evaluation ran) and the state message (when one was owed),
    /// for the caller to publish in that order.
    pub fn run_policy(&mut self, device_id: &String, now_ms: i64) -> (r: (
        Option<Vec<ConfigMessage>>,
        Option<StateMessage>,
    ))
        requires
            old(self).wf(),
            old(self).contains_id(device_id@),
            0 <= now_ms,
        ensures
            final(self).wf(),
            final(self).spec_len() == old(self).spec_len(),
            final(self).contains_id(device_id@),
            forall|other: Seq<char>|
                other != device_id@
                    ==> (final(self).contains_id(other) <==> old(self).contains_id(other)),
            forall|other: Seq<char>|
                other != device_id@ && old(self).contains_id(other)
                    ==> final(self).spec_get(other) == old(self).spec_get(other),
            ({
                let prev = old(self).spec_get(device_id@);
                let rec = final(self).spec_get(device_id@);
                &&& (r.0 is Some <==> prev.config_due(now_ms))
                &&& (r.1 is Some <==> prev.state_due(now_ms))
                &&& same_reading_and_identity(prev, rec)
                &&& rec.last_config_sent_ms == (if prev.config_due(now_ms) {
                    now_ms
                } else {
                    prev.last_config_sent_ms
                })
                &&& rec.last_state_sent_ms == (if prev.state_due(now_ms) {
                    now_ms
                } else {
                    prev.last_state_sent_ms
                })
                &&& (r.0 matches Some(v) ==> {
                    &&& v@.len() == spec_config_count(prev.model)
                    &&& ((prev.model == MODEL_TEMPERATURE || prev.model == MODEL_SCALE)
                        ==> is_temp_config(v@[0], device_id@))
                    &&& (prev.model == MODEL_SCALE ==> is_weight_config(v@[1], device_id@))
                })
                &&& (r.1 matches Some(m) ==> {
                    &&& m.topic@ == spec_state_topic(device_id@)
                    &&& m.temperature_c_x100 == prev.realtime_temperature_c_x100
                    &&& m.weight_lbs_x1e8 == prev.spec_state_weight()
                })
            }),
    {
        let ghost prior = *self;
        let n = self.records.len();
        let mut i: usize = 0;
        while i < n
            invariant
                *self == prior,
                prior == *old(self),
                prior.wf(),
                prior.contains_id(device_id@),
                0 <= now_ms,
                n == self.records@.len(),
                i <= n,
                forall|j: int| 0 <= j < i ==> self.records@[j].device_id@ != device_id@,
            decreases n - i,
        {
            if self.records[i].device_id == *device_id {
                proof {
                    prior.lemma_position(device_id@, i as int);
                }
                let config_opt = self.records[i].send_config_messages(now_ms);
                let state_opt = self.records[i].send_state_message(now_ms);
                proof {
                    self.lemma_upsert_frame(prior, device_id@, i as int);
                }
                return (config_opt, state_opt);
            }
            i = i + 1;
        }
        proof {
            assert(false);
        }
        (None, None)
    }

    /// After an upsert wrote the record for `id` at position `i` — in place,
    /// or appended at the end — and changed nothing else, the registry is
    /// still well-formed, `id` resolves to position `i`, and every other
    /// identity resolves exactly as before.
    proof fn lemma_upsert_frame(self, prior: Registry, id: Seq<char>, i: int)
        requires
            prior.wf(),
            0 <= i < self.records@.len(),
            self.records@.len() == prior.records@.len()
                || (self.records@.len() == prior.records@.len() + 1
                    && i + 1 == self.records@.len()),
            forall|j: int|
                0 <= j < prior.records@.len() && j != i
                    ==> self.records@[j] == prior.records@[j],
            self.records@[i].device_id@ == id,
            i < prior.records@.len() ==> prior.records@[i].device_id@ == id,
            i == prior.records@.len() ==> !prior.contains_id(id),
            self.records@[i].wf(),
        ensures
            self.wf(),
            self.contains_id(id),
            self.spec_index_of(id) == i,
            self.spec_get(id) == self.records@[i],
            forall|other: Seq<char>|
                other != id ==> (self.contains_id(other) <==> prior.contains_id(other)),
            forall|other: Seq<char>|
                other != id && prior.contains_id(other)
                    ==> self.spec_get(other) == prior.spec_get(other),
    {
        assert forall|j: int|
            0 <= j < self.records@.len() && j != i implies self.records@[j].device_id@
            != id by {
            if j < prior.records@.len() {
                if i < prior.records@.len() {
                    if j < i {
                        assert(prior.records@[j].device_id@ != prior.records@[i].device_id@);
                    } else {
                        assert(prior.records@[i].device_id@ != prior.records@[j].device_id@);
                    }
                } else {
                    assert(!prior.contains_id(id));
                    assert(prior.records@[j].device_id@ != id);
                }
            }
        }
        assert(self.wf());
        self.lemma_position(id, i);
        assert forall|other: Seq<char>| other != id implies (self.contains_id(other)
            <==> prior.contains_id(other)) by {
            if prior.contains_id(other) {
                let j = choose|j: int|
                    0 <= j < prior.records@.len() && prior.records@[j].device_id@ == other;
                assert(self.records@[j].device_id@ == other);
                assert(self.contains_id(other));
            }
            if self.contains_id(other) {
                let j = choose|j: int|
                    0 <= j < self.records@.len() && self.records@[j].device_id@ == other;
                assert(j != i);
                assert(prior.records@[j].device_id@ == other);
                assert(prior.contains_id(other));
            }
        }
        assert forall|other: Seq<char>|
            other != id && prior.contains_id(other) implies self.spec_get(other)
            == prior.spec_get(other) by {
            let j = prior.spec_index_of(other);
            assert(0 <= j < prior.records@.len() && prior.records@[j].device_id@ == other);
            prior.lemma_position(other, j);
            assert(j != i);
            assert(self.records@[j].device_id@ == other);
            self.lemma_position(other, j);
        }
    }
}

} // verus!
