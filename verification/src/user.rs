use vstd::prelude::*;

use crate::descriptor::{ServiceDescriptor, ServiceDescriptorKind};
use crate::error::ServiceError;
use crate::kind::Services;
use crate::registry::ServiceRegistry;

verus! {

/// The view of a [`RedisUser`]: the four projected fields as character
/// sequences.
pub struct RedisUserV {
    pub id: Seq<char>,
    pub user_id: Seq<char>,
    pub access_token: Seq<char>,
    pub refresh_token: Seq<char>,
}

/// The credential subset: a reduced projection of a [`User`] carrying only
/// what a remote worker needs to act on the user's behalf. Derived fresh from
/// a user record at envelope-build time, never persisted on its own; absent
/// optional source fields are the empty string here, so a consumer never
/// faces a missing field.
#[derive(Debug, PartialEq, Eq)]
pub struct RedisUser {
    pub id: String,
    pub user_id: String,
    pub access_token: String,
    pub refresh_token: String,
}

impl View for RedisUser {
    type V = RedisUserV;

    open spec fn view(&self) -> RedisUserV {
        RedisUserV {
            id: self.id@,
            user_id: self.user_id@,
            access_token: self.access_token@,
            refresh_token: self.refresh_token@,
        }
    }
}

impl Clone for RedisUser {
    fn clone(&self) -> (r: Self)
        ensures
            r == *self,
    {
        RedisUser {
            id: self.id.clone(),
            user_id: self.user_id.clone(),
            access_token: self.access_token.clone(),
            refresh_token: self.refresh_token.clone(),
        }
    }
}

/// The characters of an optional string, the empty sequence when it is
/// absent.
pub open spec fn opt_str_view(o: Option<String>) -> Seq<char> {
    match o {
        Some(s) => s@,
        None => Seq::<char>::empty(),
    }
}

fn clone_or_empty(o: &Option<String>) -> (r: String)
    ensures
        r@ == opt_str_view(*o),
{
    match o {
        Some(s) => s.clone(),
        None => String::new(),
    }
}

/// One user of the platform: identity fields, the OAuth credential pair, and
/// the per-user service registry. Every field but the storage-assigned
/// internal id is optional — a user may exist before authorizing, and may
/// have zero configured services.
#[derive(Debug)]
pub struct User {
    pub id: String,
    pub user_id: Option<String>,
    pub display_name: Option<String>,
    pub username: Option<String>,
    pub photo: Option<String>,
    pub access_token: Option<String>,
    pub refresh_token: Option<String>,
    pub services: Option<ServiceRegistry>,
}

impl User {
    /// The user's service map: the registry's content, or the empty map when
    /// the user has no registry at all.
    pub open spec fn spec_services_map(self) -> Map<Services, ServiceDescriptor> {
        match self.services {
            Some(rg) => rg.as_map(),
            None => Map::<Services, ServiceDescriptor>::empty(),
        }
    }

    /// What `derive_credential_subset` projects this record to.
    pub open spec fn spec_credential_subset(self) -> RedisUserV {
        RedisUserV {
            id: self.id@,
            user_id: opt_str_view(self.user_id),
            access_token: opt_str_view(self.access_token),
            refresh_token: opt_str_view(self.refresh_token),
        }
    }

    /// Typed lookup of this user's descriptor for `service`: absent registry
    /// and absent entry both read as `ServiceNotConfigured`; a stored tag
    /// that is not `D`'s kind is a `ServiceTypeMismatch`.
    pub fn get_service<D: ServiceDescriptorKind>(&self, service: Services) -> (r: Result<
        D,
        ServiceError,
    >)
        ensures
            (match r {
                Ok(p) => self.spec_services_map().contains_key(service)
                    && self.spec_services_map()[service].tag() == D::spec_kind()
                    && p.wrap() == self.spec_services_map()[service],
                Err(e) => (e == ServiceError::ServiceNotConfigured
                    && !self.spec_services_map().contains_key(service))
                    || (e == ServiceError::ServiceTypeMismatch
                    && self.spec_services_map().contains_key(service)
                    && self.spec_services_map()[service].tag() != D::spec_kind()),
            }),
    {
        match &self.services {
            Some(rg) => rg.get::<D>(service),
            None => Err(ServiceError::ServiceNotConfigured),
        }
    }

    /// Law: the credential projection is total — it narrows any user record,
    /// however many optional fields are absent, and maps each absent field to
    /// the empty string. This is the sole supported way to put a user on the
    /// wire; the identity fields never leave the process.
    pub fn derive_credential_subset(&self) -> (r: RedisUser)
        ensures
            r@ == self.spec_credential_subset(),
    {
        RedisUser {
            id: self.id.clone(),
            user_id: clone_or_empty(&self.user_id),
            access_token: clone_or_empty(&self.access_token),
            refresh_token: clone_or_empty(&self.refresh_token),
        }
    }
}

} // verus!
