use vstd::prelude::*;

use crate::kind::Services;

verus! {

/// Per-user configuration and run state of the Dig service.
///
/// Timestamps throughout the library are milliseconds since the Unix epoch,
/// UTC.
#[derive(Debug, PartialEq, Eq)]
pub struct Dig {
    pub playlist_id: String,
    pub last_run: i64,
    pub running: bool,
    pub days_to_keep: u16,
    pub min_songs: u16,
    pub album_sort: bool,
}

/// Per-user configuration and run state of the Dug service.
#[derive(Debug, PartialEq, Eq)]
pub struct Dug {
    pub playlist_id: String,
    pub last_run: i64,
    pub running: bool,
}

/// Per-user configuration and run state of the Catalog service.
#[derive(Debug, PartialEq, Eq)]
pub struct Catalog {
    pub catalog_playlist_id: String,
    pub discover_weekly_playlist_id: String,
    pub last_run: i64,
}

/// Per-user run state of the AlbumSaveTracks service.
#[derive(Debug, PartialEq, Eq)]
pub struct AlbumSaveTracks {
    pub last_run: i64,
}

/// One service's stored configuration: a discriminated union whose variant tag
/// is the service kind the payload belongs to. The registry stores these, and
/// the typed accessor checks the tag at the boundary instead of hoping the
/// shape matches.
#[derive(Debug, PartialEq, Eq)]
pub enum ServiceDescriptor {
    Dig(Dig),
    Dug(Dug),
    Catalog(Catalog),
    AlbumSaveTracks(AlbumSaveTracks),
}

impl Clone for Dig {
    fn clone(&self) -> (r: Self)
        ensures
            r == *self,
    {
        Dig {
            playlist_id: self.playlist_id.clone(),
            last_run: self.last_run,
            running: self.running,
            days_to_keep: self.days_to_keep,
            min_songs: self.min_songs,
            album_sort: self.album_sort,
        }
    }
}

impl Clone for Dug {
    fn clone(&self) -> (r: Self)
        ensures
            r == *self,
    {
        Dug {
            playlist_id: self.playlist_id.clone(),
            last_run: self.last_run,
            running: self.running,
        }
    }
}

impl Clone for Catalog {
    fn clone(&self) -> (r: Self)
        ensures
            r == *self,
    {
        Catalog {
            catalog_playlist_id: self.catalog_playlist_id.clone(),
            discover_weekly_playlist_id: self.discover_weekly_playlist_id.clone(),
            last_run: self.last_run,
        }
    }
}

impl Clone for AlbumSaveTracks {
    fn clone(&self) -> (r: Self)
        ensures
            r == *self,
    {
        AlbumSaveTracks { last_run: self.last_run }
    }
}

impl Clone for ServiceDescriptor {
    fn clone(&self) -> (r: Self)
        ensures
            r == *self,
    {
        match self {
            ServiceDescriptor::Dig(d) => ServiceDescriptor::Dig(d.clone()),
            ServiceDescriptor::Dug(d) => ServiceDescriptor::Dug(d.clone()),
            ServiceDescriptor::Catalog(d) => ServiceDescriptor::Catalog(d.clone()),
            ServiceDescriptor::AlbumSaveTracks(d) => ServiceDescriptor::AlbumSaveTracks(d.clone()),
        }
    }
}

impl ServiceDescriptor {
    /// The variant tag: the kind this payload belongs to. The registry
    /// invariant keeps this equal to the key the descriptor is stored under.
    pub open spec fn tag(self) -> Services {
        match self {
            ServiceDescriptor::Dig(_) => Services::Dig,
            ServiceDescriptor::Dug(_) => Services::Dug,
            ServiceDescriptor::Catalog(_) => Services::Catalog,
            ServiceDescriptor::AlbumSaveTracks(_) => Services::AlbumSaveTracks,
        }
    }

    /// The variant tag, computed at run time.
    pub fn kind(&self) -> (k: Services)
        ensures
            k == self.tag(),
    {
        match self {
            ServiceDescriptor::Dig(_) => Services::Dig,
            ServiceDescriptor::Dug(_) => Services::Dug,
            ServiceDescriptor::Catalog(_) => Services::Catalog,
            ServiceDescriptor::AlbumSaveTracks(_) => Services::AlbumSaveTracks,
        }
    }
}

/// The typed side of the registry accessor: a descriptor payload type that
/// knows its own kind and how it sits inside the discriminated union. Each of
/// the four payload types implements it; `ServiceRegistry::get` is generic
/// over it so that a worker recovers a value of exactly its own shape without
/// knowing about the other kinds.
pub trait ServiceDescriptorKind: Sized {
    /// The kind this payload type belongs to.
    spec fn spec_kind() -> Services;

    /// The discriminated-union value that carries this payload.
    spec fn wrap(self) -> ServiceDescriptor;

    /// Recover the payload from a stored descriptor: succeeds exactly when
    /// the stored tag is this type's kind, and then returns the payload of
    /// that very descriptor.
    fn extract(d: ServiceDescriptor) -> (r: Option<Self>)
        ensures
            (match r {
                Some(p) => p.wrap() == d && d.tag() == Self::spec_kind(),
                None => d.tag() != Self::spec_kind(),
            }),
    ;
}

impl ServiceDescriptorKind for Dig {
    open spec fn spec_kind() -> Services {
        Services::Dig
    }

    open spec fn wrap(self) -> ServiceDescriptor {
        ServiceDescriptor::Dig(self)
    }

    fn extract(d: ServiceDescriptor) -> (r: Option<Self>) {
        match d {
            ServiceDescriptor::Dig(p) => Some(p),
            _ => None,
        }
    }
}

impl ServiceDescriptorKind for Dug {
    open spec fn spec_kind() -> Services {
        Services::Dug
    }

    open spec fn wrap(self) -> ServiceDescriptor {
        ServiceDescriptor::Dug(self)
    }

    fn extract(d: ServiceDescriptor) -> (r: Option<Self>) {
        match d {
            ServiceDescriptor::Dug(p) => Some(p),
            _ => None,
        }
    }
}

impl ServiceDescriptorKind for Catalog {
    open spec fn spec_kind() -> Services {
        Services::Catalog
    }

    open spec fn wrap(self) -> ServiceDescriptor {
        ServiceDescriptor::Catalog(self)
    }

    fn extract(d: ServiceDescriptor) -> (r: Option<Self>) {
        match d {
            ServiceDescriptor::Catalog(p) => Some(p),
            _ => None,
        }
    }
}

impl ServiceDescriptorKind for AlbumSaveTracks {
    open spec fn spec_kind() -> Services {
        Services::AlbumSaveTracks
    }

    open spec fn wrap(self) -> ServiceDescriptor {
        ServiceDescriptor::AlbumSaveTracks(self)
    }

    fn extract(d: ServiceDescriptor) -> (r: Option<Self>) {
        match d {
            ServiceDescriptor::AlbumSaveTracks(p) => Some(p),
            _ => None,
        }
    }
}

} // verus!
