//! Data shapes of TAXII server responses, the fixed endpoint paths, and the
//! projection the client applies to a collection listing.

use std::collections::HashMap;
use vstd::prelude::*;
use vstd::string::StringExecFns;

verus! {

/// One page of objects returned by a collection query, with pagination
/// metadata: whether more data is available, and an opaque cursor for the
/// next page. Objects here are generic key/value records.
#[derive(Debug)]
pub struct Envelope {
    pub more: Option<bool>,
    pub next: Option<String>,
    pub objects: Option<Vec<HashMap<String, String>>>,
}

/// Server-reported metadata: the API roots it offers, contact information,
/// the default root, and a human-readable description and title.
#[derive(Debug)]
pub struct Discovery {
    pub api_roots: Vec<String>,
    pub contact: String,
    pub default: String,
    pub description: String,
    pub title: String,
}

/// One addressable feed within an API root: capability flags, identifier,
/// supported media types, name and title.
#[derive(Debug)]
pub struct Collection {
    pub can_read: bool,
    pub can_write: bool,
    pub id: String,
    pub media_types: [String; 1],
    pub name: String,
    pub title: String,
}

/// The container a server wraps its collection listing in.
#[derive(Debug)]
pub struct Collections {
    pub collections: Vec<Collection>,
}

/// The fixed path of the discovery endpoint.
pub fn discovery_path() -> (r: &'static str)
    ensures
        r@ == "taxii2/"@,
{
    "taxii2/"
}

/// The collection-listing path under an API root.
pub fn collections_path(root: &str) -> (r: String)
    ensures
        r@ == root@ + "/collections/"@,
{
    let mut path = root.to_owned();
    path.append("/collections/");
    path
}

/// Projects a collection listing down to the ordered list of collection
/// identifiers, dropping capability flags and media types.
pub fn collection_ids(collections: Collections) -> (r: Vec<String>)
    ensures
        r@.len() == collections.collections@.len(),
        forall|i: int| 0 <= i < r@.len() ==> r@[i] == collections.collections@[i].id,
{
    let mut ids: Vec<String> = Vec::new();
    let mut i: usize = 0;
    while i < collections.collections.len()
        invariant
            i <= collections.collections@.len(),
            ids@.len() == i as int,
            forall|j: int| 0 <= j < i as int ==> ids@[j] == collections.collections@[j].id,
        decreases collections.collections@.len() - i,
    {
        ids.push(collections.collections[i].id.clone());
        i = i + 1;
    }
    ids
}

} // verus!
