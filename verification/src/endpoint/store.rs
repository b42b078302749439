//! The concurrent maps that hold the registry: what each holds, and what
//! each operation on it does to that.

use dashmap::DashMap;
use vstd::prelude::*;
use crate::endpoint::kind::{EndpointKind, EndpointKindView};
use crate::endpoint::registry::{EndpointInfo, EndpointInfoView};

verus! {

/// `dashmap::DashMap`: a hash map behind shard locks. What a map holds is
/// told by [`info_entries`], [`path_entries`] and [`kind_entries`].
#[verifier::external_type_specification]
#[verifier::external_body]
#[verifier::reject_recursive_types(K)]
#[verifier::reject_recursive_types(V)]
#[verifier::reject_recursive_types(S)]
pub struct ExDashMap<K, V, S>(DashMap<K, V, S>);

/// The descriptors that a map of endpoints holds, by endpoint name.
pub uninterp spec fn info_entries(map: DashMap<String, EndpointInfo>) -> Map<
    Seq<char>,
    EndpointInfoView,
>;

/// The endpoint names that a path index holds, by routing path.
pub uninterp spec fn path_entries(map: DashMap<String, String>) -> Map<Seq<char>, Seq<char>>;

/// The endpoints that a map of variants holds, by endpoint name.
pub uninterp spec fn kind_entries(map: DashMap<String, EndpointKind>) -> Map<
    Seq<char>,
    EndpointKindView,
>;

/// The map that holds no variant.
pub open spec fn no_variants() -> Map<Seq<char>, EndpointKindView> {
    Map::empty()
}

/// The map that holds no descriptor.
pub open spec fn no_endpoints() -> Map<Seq<char>, EndpointInfoView> {
    Map::empty()
}

/// The path index that holds no path.
pub open spec fn no_paths() -> Map<Seq<char>, Seq<char>> {
    Map::empty()
}

/// The keys of `items`, in order.
pub open spec fn listed_keys(items: Seq<(String, EndpointInfo)>) -> Seq<Seq<char>> {
    Seq::new(items.len(), |i: int| items[i].0@)
}

/// `DashMap::new`: a map that holds nothing.
#[verifier::external_body]
pub(crate) fn info_map_new() -> (fresh: DashMap<String, EndpointInfo>)
    ensures
        info_entries(fresh) == no_endpoints(),
{
    DashMap::new()
}

/// `DashMap::contains_key`: whether the map holds an entry under `name`.
#[verifier::external_body]
pub(crate) fn info_map_contains(map: &DashMap<String, EndpointInfo>, name: &str) -> (found: bool)
    ensures
        found == info_entries(*map).contains_key(name@),
{
    map.contains_key(name)
}

/// `DashMap::insert`: afterwards the map holds `info` under `name`, in
/// place of what it held there, and every other entry as before.
#[verifier::external_body]
pub(crate) fn info_map_insert(
    map: &mut DashMap<String, EndpointInfo>,
    name: String,
    info: EndpointInfo,
)
    ensures
        info_entries(*final(map)) == info_entries(*old(map)).insert(name@, info@),
{
    map.insert(name, info);
}

/// `DashMap::get`: a copy of the entry under `name`, or `None` where the
/// map holds none.
#[verifier::external_body]
pub(crate) fn info_map_get(map: &DashMap<String, EndpointInfo>, name: &str) -> (found: Option<
    EndpointInfo,
>)
    ensures
        match found {
            Some(info) => info_entries(*map).contains_key(name@) && info@ == info_entries(
                *map,
            )[name@],
            None => !info_entries(*map).contains_key(name@),
        },
{
    map.get(name).map(|entry| entry.value().clone())
}

/// `DashMap::iter`: every entry of the map once, as a copy of its key and
/// value, in an order that the map does not fix.
#[verifier::external_body]
pub(crate) fn info_map_items(map: &DashMap<String, EndpointInfo>) -> (items: Vec<
    (String, EndpointInfo),
>)
    ensures
        listed_keys(items@).no_duplicates(),
        listed_keys(items@).to_set() == info_entries(*map).dom(),
        forall|i: int|
            0 <= i < items@.len() ==> (#[trigger] items@[i]).1@ == info_entries(
                *map,
            )[items@[i].0@],
{
    map.iter().map(|entry| (entry.key().clone(), entry.value().clone())).collect()
}

/// `DashMap::new`: a path index that holds nothing.
#[verifier::external_body]
pub(crate) fn path_map_new() -> (fresh: DashMap<String, String>)
    ensures
        path_entries(fresh) == no_paths(),
{
    DashMap::new()
}

/// `DashMap::insert`: afterwards the index holds `name` under `path`, in
/// place of what it held there, and every other entry as before.
#[verifier::external_body]
pub(crate) fn path_map_insert(map: &mut DashMap<String, String>, path: String, name: String)
    ensures
        path_entries(*final(map)) == path_entries(*old(map)).insert(path@, name@),
{
    map.insert(path, name);
}

/// `DashMap::get`: a copy of the name under `path`, or `None` where the
/// index holds none.
#[verifier::external_body]
pub(crate) fn path_map_get(map: &DashMap<String, String>, path: &str) -> (found: Option<String>)
    ensures
        match found {
            Some(name) => path_entries(*map).contains_key(path@) && name@ == path_entries(
                *map,
            )[path@],
            None => !path_entries(*map).contains_key(path@),
        },
{
    map.get(path).map(|entry| entry.value().clone())
}

/// `DashMap::new`: a map of variants that holds nothing.
#[verifier::external_body]
pub(crate) fn kind_map_new() -> (fresh: DashMap<String, EndpointKind>)
    ensures
        kind_entries(fresh) == no_variants(),
{
    DashMap::new()
}

/// `DashMap::insert`: afterwards the map holds `endpoint` under `name`,
/// in place of what it held there, and every other entry as before.
#[verifier::external_body]
pub(crate) fn kind_map_insert(
    map: &mut DashMap<String, EndpointKind>,
    name: String,
    endpoint: EndpointKind,
)
    ensures
        kind_entries(*final(map)) == kind_entries(*old(map)).insert(name@, endpoint@),
{
    map.insert(name, endpoint);
}

/// `DashMap::get`: a copy of the endpoint under `name`, or `None` where
/// the map holds none.
#[verifier::external_body]
pub(crate) fn kind_map_get(map: &DashMap<String, EndpointKind>, name: &str) -> (found: Option<
    EndpointKind,
>)
    ensures
        match found {
            Some(endpoint) => kind_entries(*map).contains_key(name@) && endpoint@ == kind_entries(
                *map,
            )[name@],
            None => !kind_entries(*map).contains_key(name@),
        },
{
    map.get(name).map(|entry| entry.value().clone())
}

} // verus!
