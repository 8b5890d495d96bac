use vstd::prelude::*;

use crate::error::ServiceError;

verus! {

/// The closed set of worker services. Each variant has a canonical
/// lowercase-camel string form used both as the registry's storage key and as
/// the wire discriminator tag; the encoding is stable and never reused for a
/// different kind.
#[derive(Clone, Copy, Debug, PartialEq, Eq, Hash, Structural)]
pub enum Services {
    Dig,
    Dug,
    Catalog,
    AlbumSaveTracks,
}

/// The canonical string form of a service kind. This is the single source of
/// truth for the wire tag: all serialization of kind-keyed structures routes
/// through it.
pub open spec fn spec_tag(k: Services) -> Seq<char> {
    match k {
        Services::Dig => "dig"@,
        Services::Dug => "dug"@,
        Services::Catalog => "catalog"@,
        Services::AlbumSaveTracks => "albumSaveTracks"@,
    }
}

/// The kind a candidate tag decodes to: `Some(k)` exactly when the tag is
/// `k`'s canonical form (case-sensitive, no fuzzy matching), `None` otherwise.
pub open spec fn spec_parse_tag(s: Seq<char>) -> Option<Services> {
    if s == spec_tag(Services::Dig) {
        Some(Services::Dig)
    } else if s == spec_tag(Services::Dug) {
        Some(Services::Dug)
    } else if s == spec_tag(Services::Catalog) {
        Some(Services::Catalog)
    } else if s == spec_tag(Services::AlbumSaveTracks) {
        Some(Services::AlbumSaveTracks)
    } else {
        None
    }
}

/// Content equality of two string slices, decided character by character.
fn str_eq(a: &str, b: &str) -> (r: bool)
    ensures
        r == (a@ == b@),
{
    let alen = a.unicode_len();
    let blen = b.unicode_len();
    if alen != blen {
        return false;
    }
    let mut i: usize = 0;
    while i < alen
        invariant
            i <= alen,
            alen == a@.len(),
            alen == b@.len(),
            forall|j: int| 0 <= j < i ==> a@[j] == b@[j],
        decreases alen - i,
    {
        if a.get_char(i) != b.get_char(i) {
            return false;
        }
        i = i + 1;
    }
    proof {
        assert(a@ =~= b@);
    }
    true
}

impl Services {
    /// Encode this kind as its canonical string. Total and injective over the
    /// variant set (see `lemma_tag_injective`).
    pub fn to_string(&self) -> (r: String)
        ensures
            r@ == spec_tag(*self),
    {
        match self {
            Services::Dig => "dig".to_owned(),
            Services::Dug => "dug".to_owned(),
            Services::Catalog => "catalog".to_owned(),
            Services::AlbumSaveTracks => "albumSaveTracks".to_owned(),
        }
    }

    /// Decode a candidate tag. A string matching no canonical form is an
    /// explicit `UnknownServiceKind` error, never a silent coercion.
    pub fn parse(s: &str) -> (r: Result<Services, ServiceError>)
        ensures
            (match spec_parse_tag(s@) {
                Some(k) => r == Ok::<Services, ServiceError>(k),
                None => r == Err::<Services, ServiceError>(ServiceError::UnknownServiceKind),
            }),
    {
        if str_eq(s, "dig") {
            Ok(Services::Dig)
        } else if str_eq(s, "dug") {
            Ok(Services::Dug)
        } else if str_eq(s, "catalog") {
            Ok(Services::Catalog)
        } else if str_eq(s, "albumSaveTracks") {
            Ok(Services::AlbumSaveTracks)
        } else {
            Err(ServiceError::UnknownServiceKind)
        }
    }
}

/// Law: decoding the canonical form of any kind recovers that kind.
pub proof fn lemma_tag_round_trip(k: Services)
    ensures
        spec_parse_tag(spec_tag(k)) == Some(k),
{
    reveal_strlit("dig");
    reveal_strlit("dug");
    reveal_strlit("catalog");
    reveal_strlit("albumSaveTracks");
    assert("dig"@.len() == 3);
    assert("dug"@.len() == 3);
    assert("catalog"@.len() == 7);
    assert("albumSaveTracks"@.len() == 15);
    assert("dig"@[1] == 'i');
    assert("dug"@[1] == 'u');
}

/// Law: any string accepted by the decoder re-encodes to itself.
pub proof fn lemma_parse_round_trip(s: Seq<char>, k: Services)
    requires
        spec_parse_tag(s) == Some(k),
    ensures
        spec_tag(k) == s,
{
}

/// Law: the canonical encoding is injective — no two kinds share a tag.
pub proof fn lemma_tag_injective(k1: Services, k2: Services)
    requires
        spec_tag(k1) == spec_tag(k2),
    ensures
        k1 == k2,
{
    lemma_tag_round_trip(k1);
    lemma_tag_round_trip(k2);
}

} // verus!
