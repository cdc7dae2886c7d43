//! The cache of loaded helpers: a hash map of the `rustc_hash` crate, keyed
//! by the number of the helper.
//!
//! The map is std's `HashMap` with the deterministic hasher of `rustc_hash`.
//! Its contents are spoken of through the view that `vstd` gives every
//! `HashMap`; what its methods do to the contents is taken on trust from
//! their documentation.

use crate::context::{LocalBinding, LocalBindingView};
use rustc_hash::{FxBuildHasher, FxHashMap};
use vstd::prelude::*;

verus! {

#[verifier::external_type_specification]
#[verifier::external_body]
pub struct ExFxBuildHasher(FxBuildHasher);

/// What is remembered of a helper once it has been imported.
#[derive(Clone, Copy, Debug)]
pub struct LoadedHelper<'a> {
    /// The module path that the helper is imported from.
    pub source: &'a str,
    /// The binding that the import declares in the root scope.
    pub local: LocalBinding<'a>,
}

/// The mathematical content of a [`LoadedHelper`].
pub ghost struct LoadedHelperView {
    pub source: Seq<char>,
    pub local: LocalBindingView,
}

impl<'a> View for LoadedHelper<'a> {
    type V = LoadedHelperView;

    open spec fn view(&self) -> LoadedHelperView {
        LoadedHelperView { source: self.source@, local: self.local@ }
    }
}

/// The cache that holds nothing.
pub open spec fn no_entries<'a>() -> Map<u32, LoadedHelper<'a>> {
    Map::empty()
}

/// Whether `entries` is what draining `map` may hand out: every entry is a
/// pair of the map, no key comes twice, and every key of the map comes.
pub open spec fn drained<'a>(
    map: Map<u32, LoadedHelper<'a>>,
    entries: Seq<(u32, LoadedHelper<'a>)>,
) -> bool {
    &&& forall|i: int|
        0 <= i < entries.len() ==> map.contains_pair((#[trigger] entries[i]).0, entries[i].1)
    &&& forall|i: int, j: int|
        0 <= i < j < entries.len() ==> (#[trigger] entries[i]).0 != (#[trigger] entries[j]).0
    &&& forall|key: u32| #[trigger]
        map.contains_key(key) ==> exists|i: int|
            0 <= i < entries.len() && (#[trigger] entries[i]).0 == key
}

/// `FxHashMap::default`: an empty cache.
#[verifier::external_body]
pub(crate) fn cache_new<'a>() -> (cache: FxHashMap<u32, LoadedHelper<'a>>)
    ensures
        cache@ == no_entries(),
{
    FxHashMap::default()
}

/// `HashMap::get`: the value filed under `key`, if there is one.
#[verifier::external_body]
pub(crate) fn cache_get<'a, 'm>(cache: &'m FxHashMap<u32, LoadedHelper<'a>>, key: u32) -> (found:
    Option<&'m LoadedHelper<'a>>)
    ensures
        found == if cache@.contains_key(key) {
            Some(&cache@[key])
        } else {
            None
        },
{
    cache.get(&key)
}

/// `HashMap::insert`: files `value` under `key`, in place of what was filed
/// there, and returns what was filed there before.
#[verifier::external_body]
pub(crate) fn cache_insert<'a>(
    cache: &mut FxHashMap<u32, LoadedHelper<'a>>,
    key: u32,
    value: LoadedHelper<'a>,
) -> (previous: Option<LoadedHelper<'a>>)
    ensures
        final(cache)@ == old(cache)@.insert(key, value),
        previous == if old(cache)@.contains_key(key) {
            Some(old(cache)@[key])
        } else {
            None
        },
{
    cache.insert(key, value)
}

/// `HashMap::drain`, collected into a vector: empties the cache and hands out
/// the pairs that it held, each once, in an order that is not specified.
#[verifier::external_body]
pub(crate) fn cache_drain<'a>(cache: &mut FxHashMap<u32, LoadedHelper<'a>>) -> (entries: Vec<
    (u32, LoadedHelper<'a>),
>)
    ensures
        final(cache)@ == no_entries(),
        drained(old(cache)@, entries@),
{
    cache.drain().collect()
}

} // verus!
