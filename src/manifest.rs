use vstd::prelude::*;
use crate::error::ContainerError;
use crate::platform::{platform_key, platform_key_of};

verus! {

/// One entry of a manifest list: `platform.architecture` and `digest`,
/// each absent when the document lacks it or holds a non-string there.
#[derive(Debug, Clone)]
pub struct PlatformEntry {
    pub architecture: Option<String>,
    pub digest: Option<String>,
}

/// One entry of a concrete manifest's `layers` array.
#[derive(Debug, Clone)]
pub struct LayerRef {
    pub digest: Option<String>,
}

/// A manifest document as the registry returns it.
#[derive(Debug, Clone)]
pub enum ManifestDoc {
    /// The document has a `manifests` field; `None` when it is not an array.
    List { entries: Option<Vec<PlatformEntry>> },
    /// The document has no `manifests` field; `layers` is `None` when that
    /// field is absent or not an array.
    Concrete { layers: Option<Vec<LayerRef>> },
}

/// Whether a manifest-list entry names the platform `key` and has a digest.
pub open spec fn entry_matches(e: PlatformEntry, key: Seq<char>) -> bool {
    &&& e.architecture matches Some(a) && a@ == key
    &&& e.digest is Some
}

/// Whether some entry of the list matches `key`.
pub open spec fn some_entry_matches(entries: Seq<PlatformEntry>, key: Seq<char>) -> bool {
    exists|i: int| 0 <= i < entries.len() && entry_matches(entries[i], key)
}

/// The digest of the first entry of the list that matches `key`.
pub open spec fn first_match(entries: Seq<PlatformEntry>, key: Seq<char>) -> Option<Seq<char>>
    decreases entries.len(),
{
    if entries.len() == 0 {
        None
    } else if entry_matches(entries[0], key) {
        Some(entries[0].digest->0@)
    } else {
        first_match(entries.drop_first(), key)
    }
}

/// The outcome of platform selection on a manifest list's entries.
pub open spec fn platform_digest_of(entries: Option<Vec<PlatformEntry>>, native: Seq<char>) -> Result<Seq<char>, ContainerError> {
    match platform_key_of(native) {
        None => Err(ContainerError::UnsupportedArchitecture),
        Some(key) => match entries {
            None => Err(ContainerError::DigestNotFound),
            Some(es) => match first_match(es@, key) {
                None => Err(ContainerError::DigestNotFound),
                Some(d) => Ok(d),
            },
        },
    }
}

proof fn lemma_first_match(entries: Seq<PlatformEntry>, key: Seq<char>, i: int)
    requires
        0 <= i <= entries.len(),
        forall|j: int| 0 <= j < i ==> !entry_matches(#[trigger] entries[j], key),
    ensures
        i < entries.len() && entry_matches(entries[i], key) ==> first_match(entries, key) == Some(entries[i].digest->0@),
        i == entries.len() ==> first_match(entries, key) is None,
    decreases i,
{
    if i > 0 {
        assert(!entry_matches(entries[0], key));
        let rest = entries.drop_first();
        assert forall|j: int| 0 <= j < i - 1 implies !entry_matches(#[trigger] rest[j], key) by {
            assert(rest[j] == entries[j + 1]);
        }
        lemma_first_match(rest, key, i - 1);
        if i < entries.len() {
            assert(rest[i - 1] == entries[i]);
        }
    }
}

/// Picks, from a manifest list, the digest of the first entry whose
/// architecture is the host's platform key. Fails with
/// `UnsupportedArchitecture` when `native` has no key, and with
/// `DigestNotFound` when no entry matches it.
pub fn select_platform_digest(entries: &Option<Vec<PlatformEntry>>, native: &str) -> (r: Result<String, ContainerError>)
    ensures
        r matches Ok(d) ==> platform_digest_of(*entries, native@) == Ok::<Seq<char>, ContainerError>(d@),
        r matches Err(e) ==> platform_digest_of(*entries, native@) == Err::<Seq<char>, ContainerError>(e),
        platform_key_of(native@) is None <==> r == Err::<String, ContainerError>(ContainerError::UnsupportedArchitecture),
        platform_key_of(native@) matches Some(key) ==> {
            &&& r is Err <==> (entries is None || !some_entry_matches(entries->0@, key))
            &&& r is Err ==> r->Err_0 == ContainerError::DigestNotFound
            &&& r matches Ok(d) ==> exists|i: int|
                #![trigger entries->0@[i]]
                0 <= i < entries->0@.len()
                && entry_matches(entries->0@[i], key)
                && entries->0@[i].digest->0@ == d@
                && forall|j: int| 0 <= j < i ==> !entry_matches(entries->0@[j], key)
        },
{
    let key = match platform_key(native) {
        Some(k) => k,
        None => return Err(ContainerError::UnsupportedArchitecture),
    };
    let list = match entries {
        Some(l) => l,
        None => return Err(ContainerError::DigestNotFound),
    };
    let mut i: usize = 0;
    while i < list.len()
        invariant
            i <= list@.len(),
            entries matches Some(l) && l@ == list@,
            platform_key_of(native@) == Some(key@),
            forall|j: int| 0 <= j < i ==> !entry_matches(#[trigger] list@[j], key@),
        decreases list@.len() - i,
    {
        let e = &list[i];
        if let Some(a) = &e.architecture {
            if let Some(d) = &e.digest {
                if *a == key {
                    let r = d.clone();
                    assert(list@ == entries->0@);
                    assert(entry_matches(list@[i as int], key@) && list@[i as int].digest->0@ == r@);
                    proof {
                        lemma_first_match(list@, key@, i as int);
                    }
                    return Ok(r);
                }
            }
        }
        i = i + 1;
    }
    proof {
        lemma_first_match(list@, key@, i as int);
    }
    Err(ContainerError::DigestNotFound)
}

/// The digests of a concrete manifest's layers, in array order.
pub open spec fn layer_digests_of(layers: Seq<LayerRef>) -> Seq<Seq<char>> {
    layers.map_values(|l: LayerRef| l.digest->0@)
}

/// The outcome of reading a concrete manifest's `layers` field.
pub open spec fn layer_list_of(layers: Option<Vec<LayerRef>>) -> Result<Seq<Seq<char>>, ContainerError> {
    match layers {
        Some(ls) => if forall|i: int| 0 <= i < ls@.len() ==> (#[trigger] ls@[i]).digest is Some {
            Ok(layer_digests_of(ls@))
        } else {
            Err(ContainerError::ManifestShape)
        },
        None => Err(ContainerError::ManifestShape),
    }
}

/// Reads the ordered layer digests of a concrete manifest. Fails with
/// `ManifestShape` when `layers` is missing or not an array, or when an
/// entry has no digest.
pub fn extract_layers(layers: &Option<Vec<LayerRef>>) -> (r: Result<Vec<String>, ContainerError>)
    ensures
        r matches Ok(ds) ==> layer_list_of(*layers) == Ok::<Seq<Seq<char>>, ContainerError>(ds@.map_values(|d: String| d@)),
        r matches Err(e) ==> layer_list_of(*layers) == Err::<Seq<Seq<char>>, ContainerError>(e),
        r is Ok <==> (layers matches Some(ls) && forall|i: int| 0 <= i < ls@.len() ==> (#[trigger] ls@[i]).digest is Some),
        r is Err ==> r->Err_0 == ContainerError::ManifestShape,
        r matches Ok(ds) ==> ds@.map_values(|d: String| d@) == layer_digests_of(layers->0@),
{
    let ls = match layers {
        Some(ls) => ls,
        None => return Err(ContainerError::ManifestShape),
    };
    let mut out: Vec<String> = Vec::new();
    let mut i: usize = 0;
    while i < ls.len()
        invariant
            i <= ls@.len(),
            layers matches Some(l) && l@ == ls@,
            out@.len() == i,
            forall|j: int| 0 <= j < i ==> (#[trigger] ls@[j]).digest is Some,
            forall|j: int| 0 <= j < i ==> (#[trigger] out@[j])@ == ls@[j].digest->0@,
        decreases ls@.len() - i,
    {
        match &ls[i].digest {
            Some(d) => out.push(d.clone()),
            None => {
                assert(ls@ == layers->0@ && ls@[i as int].digest is None);
                return Err(ContainerError::ManifestShape);
            },
        }
        i = i + 1;
    }
    assert(out@.map_values(|d: String| d@) =~= layer_digests_of(ls@));
    Ok(out)
}

} // verus!
