use vstd::prelude::*;

use crate::descriptor::{ServiceDescriptor, ServiceDescriptorKind};
use crate::error::ServiceError;
use crate::kind::Services;

verus! {

/// A per-user mapping from service kind to that service's stored descriptor:
/// at most one entry per kind. The mathematical content is the `Map` returned
/// by [`Self::as_map`]; every operation's contract is stated over it.
///
/// The registry travels through untyped storage at its boundary, so an entry
/// whose descriptor tag disagrees with its key is an expected (if abnormal)
/// input: [`Self::from_entries`] and [`Self::put_unchecked`] admit such
/// entries, and the typed accessor [`Self::get`] defends against them instead
/// of returning a wrong-shaped value. Entries written through [`Self::put`]
/// always satisfy the tag/key invariant [`Self::wf`].
///
/// A worker must only write the entry matching its own kind; that discipline
/// is a caller obligation across processes, not something this type can see.
#[derive(Debug)]
pub struct ServiceRegistry {
    dig: Option<ServiceDescriptor>,
    dug: Option<ServiceDescriptor>,
    catalog: Option<ServiceDescriptor>,
    album_save_tracks: Option<ServiceDescriptor>,
}

/// The tag/key invariant, at the map level: every stored descriptor's tag
/// equals the kind it is stored under.
pub open spec fn wf_map(m: Map<Services, ServiceDescriptor>) -> bool {
    forall|k: Services| #[trigger] m.contains_key(k) ==> m[k].tag() == k
}

/// The map a sequence of raw `(kind, descriptor)` entries denotes, first
/// occurrence of each kind winning (later duplicates are ignored, as a single
/// pass over stored data would).
pub open spec fn map_of_entries(s: Seq<(Services, ServiceDescriptor)>) -> Map<
    Services,
    ServiceDescriptor,
>
    decreases s.len(),
{
    if s.len() == 0 {
        Map::empty()
    } else {
        let m = map_of_entries(s.drop_last());
        if m.contains_key(s.last().0) {
            m
        } else {
            m.insert(s.last().0, s.last().1)
        }
    }
}

impl ServiceRegistry {
    /// The slot holding the entry stored under `k`, if any.
    spec fn spec_slot(self, k: Services) -> Option<ServiceDescriptor> {
        match k {
            Services::Dig => self.dig,
            Services::Dug => self.dug,
            Services::Catalog => self.catalog,
            Services::AlbumSaveTracks => self.album_save_tracks,
        }
    }

    /// The registry's content as a mathematical map from kind to descriptor.
    pub closed spec fn as_map(self) -> Map<Services, ServiceDescriptor> {
        Map::new(|k: Services| self.spec_slot(k) is Some, |k: Services| self.spec_slot(k)->Some_0)
    }

    /// The tag/key invariant of this registry's content.
    pub open spec fn wf(self) -> bool {
        wf_map(self.as_map())
    }

    proof fn lemma_slot_map(self, k: Services)
        ensures
            self.as_map().contains_key(k) == (self.spec_slot(k) is Some),
            self.spec_slot(k) is Some ==> self.as_map()[k] == self.spec_slot(k)->Some_0,
    {
    }

    /// An empty registry: no service configured.
    pub fn new() -> (r: ServiceRegistry)
        ensures
            r.as_map() == Map::<Services, ServiceDescriptor>::empty(),
            r.wf(),
    {
        let r = ServiceRegistry { dig: None, dug: None, catalog: None, album_save_tracks: None };
        proof {
            assert(r.as_map() =~= Map::<Services, ServiceDescriptor>::empty());
        }
        r
    }

    fn slot(&self, k: Services) -> (s: &Option<ServiceDescriptor>)
        ensures
            *s == self.spec_slot(k),
    {
        match k {
            Services::Dig => &self.dig,
            Services::Dug => &self.dug,
            Services::Catalog => &self.catalog,
            Services::AlbumSaveTracks => &self.album_save_tracks,
        }
    }

    fn set_slot(&mut self, k: Services, v: Option<ServiceDescriptor>)
        ensures
            (match v {
                Some(d) => final(self).as_map() == old(self).as_map().insert(k, d),
                None => final(self).as_map() == old(self).as_map().remove(k),
            }),
    {
        let ghost prev = *self;
        let ghost gv = v;
        match k {
            Services::Dig => {
                self.dig = v;
            },
            Services::Dug => {
                self.dug = v;
            },
            Services::Catalog => {
                self.catalog = v;
            },
            Services::AlbumSaveTracks => {
                self.album_save_tracks = v;
            },
        }
        proof {
            match gv {
                Some(d) => {
                    assert(self.as_map() =~= prev.as_map().insert(k, d));
                },
                None => {
                    assert(self.as_map() =~= prev.as_map().remove(k));
                },
            }
        }
    }

    /// Whether `kind` is configured.
    pub fn contains(&self, kind: Services) -> (b: bool)
        ensures
            b == self.as_map().contains_key(kind),
    {
        proof {
            self.lemma_slot_map(kind);
        }
        match self.slot(kind) {
            Some(_) => true,
            None => false,
        }
    }

    /// Typed accessor: look up `kind` and recover a descriptor of exactly the
    /// caller's type `D`.
    ///
    /// Fails with `ServiceNotConfigured` when `kind` has no entry, and with
    /// `ServiceTypeMismatch` when the stored entry's tag is not `D`'s kind —
    /// it never returns a wrong-shaped value. On success the result is an
    /// owned copy, structurally equal to the stored descriptor's payload;
    /// no reference into the registry is handed out.
    pub fn get<D: ServiceDescriptorKind>(&self, kind: Services) -> (r: Result<D, ServiceError>)
        ensures
            (match r {
                Ok(p) => self.as_map().contains_key(kind)
                    && self.as_map()[kind].tag() == D::spec_kind()
                    && p.wrap() == self.as_map()[kind],
                Err(e) => (e == ServiceError::ServiceNotConfigured
                    && !self.as_map().contains_key(kind))
                    || (e == ServiceError::ServiceTypeMismatch
                    && self.as_map().contains_key(kind)
                    && self.as_map()[kind].tag() != D::spec_kind()),
            }),
    {
        proof {
            self.lemma_slot_map(kind);
        }
        match self.slot(kind) {
            None => Err(ServiceError::ServiceNotConfigured),
            Some(d) => {
                let copy = d.clone();
                match D::extract(copy) {
                    Some(p) => Ok(p),
                    None => Err(ServiceError::ServiceTypeMismatch),
                }
            },
        }
    }

    /// Insert or replace the entry for `kind`, enforcing the tag/key
    /// invariant: a descriptor whose tag disagrees with `kind` is rejected
    /// with `InvariantViolation` (surfacing the caller bug rather than
    /// silently re-tagging), and the registry is left unchanged.
    pub fn put(&mut self, kind: Services, descriptor: ServiceDescriptor) -> (r: Result<
        (),
        ServiceError,
    >)
        ensures
            (match r {
                Ok(_) => descriptor.tag() == kind
                    && final(self).as_map() == old(self).as_map().insert(kind, descriptor),
                Err(e) => e == ServiceError::InvariantViolation
                    && descriptor.tag() != kind
                    && *final(self) == *old(self),
            }),
            old(self).wf() && r is Ok ==> final(self).wf(),
    {
        let tag = descriptor.kind();
        if tag == kind {
            self.set_slot(kind, Some(descriptor));
            Ok(())
        } else {
            Err(ServiceError::InvariantViolation)
        }
    }

    /// Insert or replace the entry for `kind` without checking the tag/key
    /// invariant: the raw write a storage boundary performs when a stored
    /// document is replayed into a registry. `get` defends against whatever
    /// this admits.
    pub fn put_unchecked(&mut self, kind: Services, descriptor: ServiceDescriptor)
        ensures
            final(self).as_map() == old(self).as_map().insert(kind, descriptor),
    {
        self.set_slot(kind, Some(descriptor));
    }

    /// Remove and return the entry stored under `kind`, if any.
    pub fn remove(&mut self, kind: Services) -> (r: Option<ServiceDescriptor>)
        ensures
            final(self).as_map() == old(self).as_map().remove(kind),
            (match r {
                Some(d) => old(self).as_map().contains_key(kind) && d == old(self).as_map()[kind],
                None => !old(self).as_map().contains_key(kind),
            }),
    {
        proof {
            self.lemma_slot_map(kind);
        }
        let existing: Option<ServiceDescriptor> = match self.slot(kind) {
            Some(d) => Some(d.clone()),
            None => None,
        };
        self.set_slot(kind, None);
        existing
    }

    /// The configured kinds, each once; order is presentation only.
    pub fn list_kinds(&self) -> (r: Vec<Services>)
        ensures
            forall|k: Services| r@.contains(k) <==> self.as_map().contains_key(k),
            r@.no_duplicates(),
    {
        let mut r: Vec<Services> = Vec::new();
        let ghost i_dig: int = r@.len() as int;
        if self.contains(Services::Dig) {
            r.push(Services::Dig);
        }
        let ghost i_dug: int = r@.len() as int;
        if self.contains(Services::Dug) {
            r.push(Services::Dug);
        }
        let ghost i_cat: int = r@.len() as int;
        if self.contains(Services::Catalog) {
            r.push(Services::Catalog);
        }
        let ghost i_ast: int = r@.len() as int;
        if self.contains(Services::AlbumSaveTracks) {
            r.push(Services::AlbumSaveTracks);
        }
        proof {
            assert forall|k: Services| r@.contains(k) <==> self.as_map().contains_key(k) by {
                if self.as_map().contains_key(k) {
                    match k {
                        Services::Dig => {
                            assert(r@[i_dig] == k);
                        },
                        Services::Dug => {
                            assert(r@[i_dug] == k);
                        },
                        Services::Catalog => {
                            assert(r@[i_cat] == k);
                        },
                        Services::AlbumSaveTracks => {
                            assert(r@[i_ast] == k);
                        },
                    }
                    assert(r@.contains(k));
                }
                if r@.contains(k) {
                    let i = choose|i: int| 0 <= i < r@.len() && r@[i] == k;
                }
            }
        }
        r
    }

    /// The registry's content as raw `(kind, descriptor)` entries, ready for
    /// a storage boundary to write out: one entry per configured kind, each
    /// carrying exactly the stored descriptor. `lemma_entries_round_trip`
    /// shows that replaying them through `from_entries` rebuilds this very
    /// content.
    pub fn to_entries(&self) -> (r: Vec<(Services, ServiceDescriptor)>)
        ensures
            forall|i: int|
                0 <= i < r@.len() ==> self.as_map().contains_key(#[trigger] r@[i].0) && r@[i].1
                    == self.as_map()[r@[i].0],
            forall|k: Services|
                self.as_map().contains_key(k) ==> exists|i: int|
                    0 <= i < r@.len() && (#[trigger] r@[i]).0 == k,
            forall|i: int, j: int| 0 <= i < j < r@.len() ==> r@[i].0 != r@[j].0,
    {
        proof {
            self.lemma_slot_map(Services::Dig);
            self.lemma_slot_map(Services::Dug);
            self.lemma_slot_map(Services::Catalog);
            self.lemma_slot_map(Services::AlbumSaveTracks);
        }
        let mut r: Vec<(Services, ServiceDescriptor)> = Vec::new();
        let ghost i_dig: int = r@.len() as int;
        if let Some(d) = self.slot(Services::Dig) {
            r.push((Services::Dig, d.clone()));
        }
        let ghost i_dug: int = r@.len() as int;
        if let Some(d) = self.slot(Services::Dug) {
            r.push((Services::Dug, d.clone()));
        }
        let ghost i_cat: int = r@.len() as int;
        if let Some(d) = self.slot(Services::Catalog) {
            r.push((Services::Catalog, d.clone()));
        }
        let ghost i_ast: int = r@.len() as int;
        if let Some(d) = self.slot(Services::AlbumSaveTracks) {
            r.push((Services::AlbumSaveTracks, d.clone()));
        }
        proof {
            assert forall|k: Services|
                self.as_map().contains_key(k) implies exists|i: int|
                0 <= i < r@.len() && (#[trigger] r@[i]).0 == k by {
                match k {
                    Services::Dig => {
                        assert(r@[i_dig].0 == k);
                    },
                    Services::Dug => {
                        assert(r@[i_dug].0 == k);
                    },
                    Services::Catalog => {
                        assert(r@[i_cat].0 == k);
                    },
                    Services::AlbumSaveTracks => {
                        assert(r@[i_ast].0 == k);
                    },
                }
            }
        }
        r
    }

    /// Replay raw `(kind, descriptor)` entries, as read back from untyped
    /// storage, into a registry: a single pass, first occurrence of each kind
    /// winning. Tags are not checked here — a stored tag that disagrees with
    /// its key must surface later as a `ServiceTypeMismatch` from `get`, not
    /// vanish during loading.
    pub fn from_entries(entries: &Vec<(Services, ServiceDescriptor)>) -> (r: ServiceRegistry)
        ensures
            r.as_map() == map_of_entries(entries@),
    {
        let mut r = ServiceRegistry::new();
        proof {
            assert(entries@.take(0) =~= Seq::<(Services, ServiceDescriptor)>::empty());
        }
        let mut i: usize = 0;
        while i < entries.len()
            invariant
                i <= entries.len(),
                r.as_map() == map_of_entries(entries@.take(i as int)),
            decreases entries.len() - i,
        {
            let k = entries[i].0;
            if !r.contains(k) {
                let d = entries[i].1.clone();
                r.put_unchecked(k, d);
            }
            proof {
                assert(entries@.take(i as int + 1).drop_last() =~= entries@.take(i as int));
                assert(entries@.take(i as int + 1).last() == entries@[i as int]);
            }
            i = i + 1;
        }
        proof {
            assert(entries@.take(entries@.len() as int) =~= entries@);
        }
        r
    }
}

/// Law: a storage round trip is lossless — any unique-keyed entry sequence
/// that agrees with a map pointwise and covers its keys (what `to_entries`
/// produces from a registry holding that map) replays, first occurrence
/// winning, to exactly that map.
pub proof fn lemma_entries_round_trip(
    m: Map<Services, ServiceDescriptor>,
    s: Seq<(Services, ServiceDescriptor)>,
)
    requires
        forall|i: int| 0 <= i < s.len() ==> m.contains_key(#[trigger] s[i].0) && s[i].1 == m[s[i].0],
        forall|k: Services|
            m.contains_key(k) ==> exists|i: int| 0 <= i < s.len() && (#[trigger] s[i]).0 == k,
        forall|i: int, j: int| 0 <= i < j < s.len() ==> s[i].0 != s[j].0,
    ensures
        map_of_entries(s) == m,
    decreases s.len(),
{
    if s.len() == 0 {
        assert forall|k: Services| !m.contains_key(k) by {
            if m.contains_key(k) {
                let i = choose|i: int| 0 <= i < s.len() && (#[trigger] s[i]).0 == k;
            }
        }
        assert(map_of_entries(s) =~= m);
    } else {
        let k = s.last().0;
        let d = s.last().1;
        let s2 = s.drop_last();
        let m2 = m.remove(k);
        assert(s.last() == s[s.len() - 1]);
        assert forall|i: int|
            0 <= i < s2.len() implies m2.contains_key(#[trigger] s2[i].0) && s2[i].1
            == m2[s2[i].0] by {
            assert(s2[i] == s[i]);
            assert(s[i].0 != k);
        }
        assert forall|k2: Services|
            m2.contains_key(k2) implies exists|i: int|
            0 <= i < s2.len() && (#[trigger] s2[i]).0 == k2 by {
            let i = choose|i: int| 0 <= i < s.len() && (#[trigger] s[i]).0 == k2;
            assert(i != s.len() - 1);
            assert(s2[i] == s[i]);
        }
        lemma_entries_round_trip(m2, s2);
        assert(!m2.contains_key(k));
        assert(map_of_entries(s) == m2.insert(k, d));
        assert(m2.insert(k, d) =~= m);
    }
}

/// Law: storing a descriptor whose tag matches its key, over any registry
/// content, yields a map whose entry under that key is exactly the stored
/// descriptor — what `get` then returns an owned copy of.
pub proof fn lemma_put_then_lookup(
    m: Map<Services, ServiceDescriptor>,
    k: Services,
    d: ServiceDescriptor,
)
    requires
        d.tag() == k,
    ensures
        m.insert(k, d).contains_key(k),
        m.insert(k, d)[k] == d,
{
}

/// Law: an insertion that respects the tag/key invariant preserves it.
pub proof fn lemma_insert_preserves_wf(
    m: Map<Services, ServiceDescriptor>,
    k: Services,
    d: ServiceDescriptor,
)
    requires
        wf_map(m),
        d.tag() == k,
    ensures
        wf_map(m.insert(k, d)),
{
}

/// Law: removal preserves the tag/key invariant.
pub proof fn lemma_remove_preserves_wf(m: Map<Services, ServiceDescriptor>, k: Services)
    requires
        wf_map(m),
    ensures
        wf_map(m.remove(k)),
{
}

} // verus!
