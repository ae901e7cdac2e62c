//! Multi-tenant authorization-handle registry with shared revocation
//! tracking.
//!
//! The registry maps tenant keys to independent [`SharedAuth`] states and
//! owns one revocation list consulted by every tenant.  Both live in
//! concurrent maps of an outside crate; the maps are opaque to the
//! verifier, so what they hold is named by [`revocation_entries`] and every
//! access goes through a trusted wrapper whose contract speaks over that
//! name.

use vstd::prelude::*;

verus! {

use crate::SharedAuth;
use biscuit_auth::Biscuit;
use dashmap::DashMap;
use std::hash::Hash;

/// The concurrent map behind the revocation list.
type RevocationMap = DashMap<Vec<u8>, u64>;

#[verifier::external_type_specification]
#[verifier::external_body]
#[verifier::reject_recursive_types(K)]
#[verifier::reject_recursive_types(V)]
#[verifier::reject_recursive_types(S)]
pub struct ExDashMap<K, V, S>(DashMap<K, V, S>);

/// What the revocation list holds: a mapping from revocation identifier
/// to expiry, in seconds since the Unix epoch.
pub uninterp spec fn revocation_entries(m: RevocationMap) -> Map<Seq<u8>, u64>;

/// The empty revocation-list contents.
pub open spec fn spec_no_revocations() -> Map<Seq<u8>, u64> {
    Map::empty()
}

/// An entry with an expiry strictly after `cutoff` is still live.
pub open spec fn spec_live(expiry: u64, cutoff: u64) -> bool {
    expiry > cutoff
}

/// What a sweep at `cutoff` leaves: exactly the entries with a live
/// expiry, each with its expiry unchanged.
pub open spec fn spec_swept(entries: Map<Seq<u8>, u64>, cutoff: u64) -> Map<Seq<u8>, u64> {
    Map::<Seq<u8>, u64>::new(
        |id: Seq<u8>| entries.contains_key(id) && spec_live(entries[id], cutoff),
        |id: Seq<u8>| entries[id],
    )
}

/// The identifier vetoes at `now`: it is present and its expiry lies in
/// the future.
pub open spec fn spec_active(entries: Map<Seq<u8>, u64>, id: Seq<u8>, now: u64) -> bool {
    entries.contains_key(id) && entries[id] > now
}

/// The identifier bytes of a list of identifiers.
pub open spec fn spec_ids(ids: Seq<Vec<u8>>) -> Seq<Seq<u8>> {
    ids.map_values(|id: Vec<u8>| id@)
}

/// No identifier of `ids` vetoes at `now`.
pub open spec fn spec_not_revoked(entries: Map<Seq<u8>, u64>, ids: Seq<Seq<u8>>, now: u64) -> bool {
    forall|j: int| 0 <= j < ids.len() ==> !spec_active(entries, ids[j], now)
}

fn expiry_is_live(expiry: u64, cutoff: u64) -> (r: bool)
    ensures
        r == spec_live(expiry, cutoff),
{
    expiry > cutoff
}

/// Relies on `dashmap::DashMap::new`: the new map is empty.
#[verifier::external_body]
fn revocation_map_new() -> (m: RevocationMap)
    ensures
        revocation_entries(m) == spec_no_revocations(),
{
    DashMap::new()
}

/// Relies on `dashmap::DashMap::insert`: maps `id` to `expiry`, replacing
/// any previous expiry stored under `id`.
#[verifier::external_body]
fn revocation_map_insert(m: &mut RevocationMap, id: Vec<u8>, expiry: u64)
    ensures
        revocation_entries(*final(m)) == revocation_entries(*old(m)).insert(id@, expiry),
{
    let _ = m.insert(id, expiry);
}

/// Relies on `dashmap::DashMap::get`: the expiry stored under `id`, if
/// one is present.
#[verifier::external_body]
fn revocation_map_get(m: &RevocationMap, id: &Vec<u8>) -> (r: Option<u64>)
    ensures
        r == (if revocation_entries(*m).contains_key(id@) {
            Some(revocation_entries(*m)[id@])
        } else {
            None
        }),
{
    m.get(id).map(|entry| *entry.value())
}

/// Relies on `dashmap::DashMap::len`: the number of entries held.
#[verifier::external_body]
fn revocation_map_len(m: &RevocationMap) -> (r: usize)
    ensures
        r == revocation_entries(*m).len(),
{
    m.len()
}

/// Relies on `dashmap::DashMap::retain`, handed [`expiry_is_live`]:
/// exactly the entries whose expiry lies strictly after `cutoff` remain.
#[verifier::external_body]
fn revocation_map_sweep(m: &mut RevocationMap, cutoff: u64)
    ensures
        revocation_entries(*final(m)) == spec_swept(revocation_entries(*old(m)), cutoff),
{
    m.retain(|_id, expiry| expiry_is_live(*expiry, cutoff));
}

/// Relies on `dashmap::DashMap::new`: the new tenant map is empty.
#[verifier::external_body]
fn tenant_map_new<K: Eq + Hash>() -> DashMap<K, SharedAuth> {
    DashMap::new()
}

/// Relies on `std::time::SystemTime::now` and `duration_since`: the
/// wall-clock time in seconds since the Unix epoch; a clock before the
/// epoch reads as zero.  The value depends on the machine's clock, so
/// nothing is assumed of it.
#[verifier::external_body]
fn now_unix_seconds() -> u64 {
    match std::time::SystemTime::now().duration_since(std::time::UNIX_EPOCH) {
        Ok(elapsed) => elapsed.as_secs(),
        Err(_) => 0,
    }
}

/// Concurrent mapping from revocation identifier (opaque bytes) to expiry
/// (seconds since the Unix epoch).  An identifier is active while its
/// expiry lies in the future at check time; a sweep removes every entry
/// at or past the current time.
struct RevocationList {
    map: RevocationMap,
}

/// Multi-tenant registry: a concurrent map from tenant key to independent
/// shared authorization state, plus one shared revocation list consulted
/// by every tenant.
///
/// Revocation is a global veto: a per-tenant authorization pass does not
/// imply overall admission if the token is revoked, so a complete check
/// combines the tenant's [`SharedAuth::check`] with [`AuthHandles::check`].
#[verifier::reject_recursive_types(K)]
pub struct AuthHandles<K> {
    auth_map: DashMap<K, SharedAuth>,
    revocation_list: RevocationList,
}

impl<K> AuthHandles<K> {
    /// The tenant-key to shared-state map.
    pub closed spec fn spec_auth_map(self) -> DashMap<K, SharedAuth> {
        self.auth_map
    }

    /// The revocation list's contents: identifier to expiry.
    pub closed spec fn spec_revoked(self) -> Map<Seq<u8>, u64> {
        revocation_entries(self.revocation_list.map)
    }

    /// The tenant-key to shared-state map, for direct insert, remove and
    /// iteration.  A tenant key with no registered state is an operator
    /// error, not represented internally.
    pub fn auth_map(&self) -> (r: &DashMap<K, SharedAuth>)
        ensures
            *r == self.spec_auth_map(),
    {
        &self.auth_map
    }

    /// True iff none of the token's revocation identifiers vetoes at the
    /// current wall-clock time.  The identifiers and the clock come from
    /// outside; the veto logic itself is [`AuthHandles::check_ids`].
    pub fn check(&self, biscuit: &Biscuit) -> (r: bool)
        ensures
            self.spec_revoked() == Map::<Seq<u8>, u64>::empty() ==> r,
    {
        let ids = biscuit.revocation_identifiers();
        let now = now_unix_seconds();
        self.check_ids(&ids, now)
    }

    /// The revocation veto, decided entirely here: false iff some
    /// identifier of `ids` is present in the revocation list with an
    /// expiry still in the future at `now`.
    pub fn check_ids(&self, ids: &Vec<Vec<u8>>, now: u64) -> (r: bool)
        ensures
            r == spec_not_revoked(self.spec_revoked(), spec_ids(ids@), now),
    {
        let n = ids.len();
        let mut i: usize = 0;
        while i < n
            invariant
                n == ids@.len(),
                0 <= i <= n,
                forall|j: int|
                    0 <= j < i ==> !spec_active(self.spec_revoked(), spec_ids(ids@)[j], now),
            decreases n - i,
        {
            match revocation_map_get(&self.revocation_list.map, &ids[i]) {
                Some(expiry) => {
                    if expiry > now {
                        assert(spec_active(self.spec_revoked(), spec_ids(ids@)[i as int], now));
                        return false;
                    }
                },
                None => (),
            }
            i += 1;
        }
        true
    }

    /// Marks `id` revoked until `expiry` (seconds since the Unix epoch):
    /// from now until a sweep past that time, any token carrying `id`
    /// fails the non-revocation check while `expiry` lies in the future.
    pub fn revoke(&mut self, id: Vec<u8>, expiry: u64)
        ensures
            final(self).spec_revoked() == old(self).spec_revoked().insert(id@, expiry),
            final(self).spec_auth_map() == old(self).spec_auth_map(),
    {
        revocation_map_insert(&mut self.revocation_list.map, id, expiry);
    }

    /// The expiry currently stored for `id`, if any.
    pub fn revocation_expiry(&self, id: &Vec<u8>) -> (r: Option<u64>)
        ensures
            r matches Some(e) ==> self.spec_revoked().contains_key(id@) && self.spec_revoked()[id@]
                == e,
            r is None ==> !self.spec_revoked().contains_key(id@),
    {
        revocation_map_get(&self.revocation_list.map, id)
    }

    /// How many revocation entries are held.
    pub fn revocation_count(&self) -> (r: usize)
        ensures
            r == self.spec_revoked().len(),
    {
        revocation_map_len(&self.revocation_list.map)
    }

    /// Sweeps the revocation list at a caller-given time: every entry
    /// whose expiry lies at or before `cutoff` is removed, every later
    /// entry stays unchanged, nothing is added, and the tenant map is
    /// untouched.  [`AuthHandles::drain_expired`] is the wall-clock form.
    pub fn sweep_at(&mut self, cutoff: u64)
        ensures
            final(self).spec_revoked() == spec_swept(old(self).spec_revoked(), cutoff),
            final(self).spec_auth_map() == old(self).spec_auth_map(),
    {
        revocation_map_sweep(&mut self.revocation_list.map, cutoff);
    }

    /// Clean up expired entries in the revocation list: every entry at or
    /// past the current wall-clock time is removed, live entries stay
    /// untouched.
    ///
    /// This does a full scan over the list of existing revocation IDs,
    /// so it should be used sparingly if there are a large number of
    /// authorizers or revocation IDs.
    pub fn drain_expired(&mut self)
        ensures
            exists|cutoff: u64|
                final(self).spec_revoked() == spec_swept(old(self).spec_revoked(), cutoff),
            final(self).spec_auth_map() == old(self).spec_auth_map(),
    {
        let cutoff = now_unix_seconds();
        self.sweep_at(cutoff);
        proof {
            assert(self.spec_revoked() == spec_swept(old(self).spec_revoked(), cutoff));
        }
    }
}

impl<K: Hash + Eq> AuthHandles<K> {
    /// An empty registry: no tenants, nothing revoked.
    pub fn new() -> (r: Self)
        ensures
            r.spec_revoked() == Map::<Seq<u8>, u64>::empty(),
    {
        Self { auth_map: tenant_map_new(), revocation_list: RevocationList { map: revocation_map_new() } }
    }
}

impl<K: Hash + Eq> Default for AuthHandles<K> {
    fn default() -> (r: Self)
        ensures
            r.spec_revoked() == Map::<Seq<u8>, u64>::empty(),
    {
        Self::new()
    }
}

/// A sweep is a pure expiry filter: it keeps exactly the identifiers
/// whose expiry lies strictly after the cutoff, each with its expiry
/// unchanged, and removes everything else.
pub proof fn lemma_sweep_is_expiry_filter(entries: Map<Seq<u8>, u64>, cutoff: u64, id: Seq<u8>)
    ensures
        spec_swept(entries, cutoff).contains_key(id) <==> (entries.contains_key(id) && spec_live(
            entries[id],
            cutoff,
        )),
        spec_swept(entries, cutoff).contains_key(id) ==> spec_swept(entries, cutoff)[id]
            == entries[id],
{
}

/// Sweeping a list whose every entry is still live removes nothing.
pub proof fn lemma_sweep_clean_is_noop(entries: Map<Seq<u8>, u64>, cutoff: u64)
    requires
        forall|id: Seq<u8>| entries.contains_key(id) ==> spec_live(entries[id], cutoff),
    ensures
        spec_swept(entries, cutoff) == entries,
{
    assert(spec_swept(entries, cutoff) =~= entries);
}

/// Sweeping twice at the same cutoff removes nothing the second time.
pub proof fn lemma_sweep_idempotent(entries: Map<Seq<u8>, u64>, cutoff: u64)
    ensures
        spec_swept(spec_swept(entries, cutoff), cutoff) == spec_swept(entries, cutoff),
{
    assert(spec_swept(spec_swept(entries, cutoff), cutoff) =~= spec_swept(entries, cutoff));
}

/// The revocation veto overrides an otherwise valid authorization: once
/// one of the token's identifiers is inserted with an expiry still in the
/// future, the non-revocation check fails.
pub proof fn lemma_revocation_vetoes(
    entries: Map<Seq<u8>, u64>,
    ids: Seq<Seq<u8>>,
    j: int,
    expiry: u64,
    now: u64,
)
    requires
        0 <= j < ids.len(),
        expiry > now,
    ensures
        !spec_not_revoked(entries.insert(ids[j], expiry), ids, now),
{
    assert(spec_active(entries.insert(ids[j], expiry), ids[j], now));
}

/// The veto lapses with its expiry: if every listed identifier of the
/// token has an expiry at or before `now`, the token is not revoked —
/// whether or not a sweep has already removed those entries.
pub proof fn lemma_expired_entries_do_not_veto(
    entries: Map<Seq<u8>, u64>,
    ids: Seq<Seq<u8>>,
    now: u64,
)
    requires
        forall|j: int|
            0 <= j < ids.len() && entries.contains_key(ids[j]) ==> entries[ids[j]] <= now,
    ensures
        spec_not_revoked(entries, ids, now),
{
}

} // verus!
