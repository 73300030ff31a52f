use vstd::prelude::*;
use crate::dma::clock::{nanos_since, std_now};
use crate::enums::player_type::PlayerType;

verus! {

/// An entity that the radar follows from poll to poll.
#[derive(Clone, Copy, Debug, PartialEq, Eq, Structural)]
pub enum CachedEntity {
    Bomb { ptr: u64 },
    Player { ptr: u64, player_type: PlayerType },
}

/// How long a cache stays valid: 250 ms, in nanoseconds.
pub const CACHE_LIFETIME_NANOS: u128 = 250_000_000;

/// What the radar keeps between rebuilds: the entities it follows, the map's name and the
/// entity list, and when they were read. A cache built is valid for 250 ms.
pub struct Cache {
    /// When the cache was built; `None` for a cache that was never built, which is invalid.
    pub timestamp: Option<std::time::Instant>,
    pub entity_cache: Vec<CachedEntity>,
    pub map_name: String,
    pub entity_list: u64,
}

/// Why a cache could not be built: the first part that was not set.
#[derive(Clone, Copy, Debug, PartialEq, Eq, Structural)]
pub enum CacheBuildError {
    EntityCacheNotSet,
    MapNameNotSet,
    EntityListNotSet,
}

impl CacheBuildError {
    /// The error's message, as `"<part> not set on builder"`.
    pub fn message(&self) -> (r: &'static str)
        ensures
            r@ == match self {
                CacheBuildError::EntityCacheNotSet => "entity_cache not set on builder"@,
                CacheBuildError::MapNameNotSet => "map_name not set on builder"@,
                CacheBuildError::EntityListNotSet => "entity_list not set on builder"@,
            },
    {
        match self {
            CacheBuildError::EntityCacheNotSet => "entity_cache not set on builder",
            CacheBuildError::MapNameNotSet => "map_name not set on builder",
            CacheBuildError::EntityListNotSet => "entity_list not set on builder",
        }
    }
}

impl Cache {
    /// Whether a cache built `elapsed_nanos` nanoseconds ago is still valid: at most 250 ms.
    pub fn valid_after(elapsed_nanos: u128) -> (r: bool)
        ensures
            r == (elapsed_nanos <= CACHE_LIFETIME_NANOS),
    {
        elapsed_nanos <= CACHE_LIFETIME_NANOS
    }

    /// Whether the cache is valid: it was built, at most 250 ms ago (the clock decides).
    pub fn is_valid(&self) -> (r: bool)
        ensures
            self.timestamp is None ==> !r,
    {
        match &self.timestamp {
            None => false,
            Some(stamp) => Cache::valid_after(nanos_since(stamp)),
        }
    }

    /// A cache that is not valid, to be rebuilt at the first poll.
    pub fn new_invalid() -> (r: Cache)
        ensures
            r.timestamp is None,
            r.entity_cache@.len() == 0,
            r.map_name@.len() == 0,
            r.entity_list == 0,
    {
        Cache { timestamp: None, entity_cache: Vec::new(), map_name: String::new(), entity_list: 0 }
    }

    /// A copy of the entities the cache follows.
    pub fn entity_cache(&mut self) -> (r: Vec<CachedEntity>)
        ensures
            r@ == old(self).entity_cache@,
            *final(self) == *old(self),
    {
        let mut out: Vec<CachedEntity> = Vec::new();
        let mut i: usize = 0;
        while i < self.entity_cache.len()
            invariant
                i <= self.entity_cache@.len(),
                out@ == self.entity_cache@.subrange(0, i as int),
            decreases self.entity_cache@.len() - i,
        {
            out.push(self.entity_cache[i]);
            i += 1;
        }
        out
    }

    /// A copy of the map's name.
    pub fn map_name(&self) -> (r: String)
        ensures
            r@ == self.map_name@,
    {
        self.map_name.clone()
    }

    /// The entity list.
    pub fn entity_list(&self) -> (r: u64)
        ensures
            r == self.entity_list,
    {
        self.entity_list
    }
}

/// Builds a [`Cache`] from its parts; every part must be set.
pub struct CacheBuilder {
    pub entity_cache: Option<Vec<CachedEntity>>,
    pub map_name: Option<String>,
    pub entity_list: Option<u64>,
}

impl CacheBuilder {
    /// A builder with no part set.
    pub fn new() -> (r: CacheBuilder)
        ensures
            r.entity_cache is None,
            r.map_name is None,
            r.entity_list is None,
    {
        CacheBuilder { entity_cache: None, map_name: None, entity_list: None }
    }

    /// The builder with its entity cache set to `v` and its other parts kept.
    pub open spec fn with_entity_cache(self, v: Vec<CachedEntity>) -> CacheBuilder {
        CacheBuilder { entity_cache: Some(v), map_name: self.map_name, entity_list: self.entity_list }
    }

    /// The builder with its map name set to `v` and its other parts kept.
    pub open spec fn with_map_name(self, v: String) -> CacheBuilder {
        CacheBuilder { entity_cache: self.entity_cache, map_name: Some(v), entity_list: self.entity_list }
    }

    /// The builder with its entity list set to `v` and its other parts kept.
    pub open spec fn with_entity_list(self, v: u64) -> CacheBuilder {
        CacheBuilder { entity_cache: self.entity_cache, map_name: self.map_name, entity_list: Some(v) }
    }

    /// Whether every part is set, so that [`CacheBuilder::build`] succeeds.
    pub open spec fn complete(self) -> bool {
        self.entity_cache is Some && self.map_name is Some && self.entity_list is Some
    }

    pub fn entity_cache(self, entity_cache: Vec<CachedEntity>) -> (r: CacheBuilder)
        ensures
            r == self.with_entity_cache(entity_cache),
    {
        CacheBuilder { entity_cache: Some(entity_cache), ..self }
    }

    pub fn map_name(self, map_name: String) -> (r: CacheBuilder)
        ensures
            r == self.with_map_name(map_name),
    {
        CacheBuilder { map_name: Some(map_name), ..self }
    }

    pub fn entity_list(self, entity_list: u64) -> (r: CacheBuilder)
        ensures
            r == self.with_entity_list(entity_list),
    {
        CacheBuilder { entity_list: Some(entity_list), ..self }
    }

    /// The cache with the parts set, stamped now; the first part not set (entity cache, map
    /// name, entity list, in that order) is the error.
    pub fn build(self) -> (r: Result<Cache, CacheBuildError>)
        ensures
            r is Ok <==> self.complete(),
            match r {
                Ok(cache) => {
                    &&& self.entity_cache == Some(cache.entity_cache)
                    &&& self.map_name == Some(cache.map_name)
                    &&& self.entity_list == Some(cache.entity_list)
                    &&& cache.timestamp is Some
                },
                Err(CacheBuildError::EntityCacheNotSet) => self.entity_cache is None,
                Err(CacheBuildError::MapNameNotSet) => self.entity_cache is Some && self.map_name is None,
                Err(CacheBuildError::EntityListNotSet) => self.entity_cache is Some && self.map_name is Some && self.entity_list is None,
            },
    {
        let timestamp = std_now();
        let entity_cache = match self.entity_cache {
            Some(v) => v,
            None => return Err(CacheBuildError::EntityCacheNotSet),
        };
        let map_name = match self.map_name {
            Some(v) => v,
            None => return Err(CacheBuildError::MapNameNotSet),
        };
        let entity_list = match self.entity_list {
            Some(v) => v,
            None => return Err(CacheBuildError::EntityListNotSet),
        };
        Ok(Cache { timestamp: Some(timestamp), entity_cache, map_name, entity_list })
    }
}

/// The builder's setters may be called in any order: setting two different parts gives the
/// same builder either way round.
pub proof fn builder_setters_commute(b: CacheBuilder, entity_cache: Vec<CachedEntity>, map_name: String, entity_list: u64)
    ensures
        b.with_entity_cache(entity_cache).with_map_name(map_name) == b.with_map_name(map_name).with_entity_cache(entity_cache),
        b.with_entity_cache(entity_cache).with_entity_list(entity_list) == b.with_entity_list(entity_list).with_entity_cache(entity_cache),
        b.with_map_name(map_name).with_entity_list(entity_list) == b.with_entity_list(entity_list).with_map_name(map_name),
{
}

/// Setting a part again replaces the value set before.
pub proof fn builder_last_set_wins(
    b: CacheBuilder,
    entity_cache: Vec<CachedEntity>,
    entity_cache2: Vec<CachedEntity>,
    map_name: String,
    map_name2: String,
    entity_list: u64,
    entity_list2: u64,
)
    ensures
        b.with_entity_cache(entity_cache).with_entity_cache(entity_cache2) == b.with_entity_cache(entity_cache2),
        b.with_map_name(map_name).with_map_name(map_name2) == b.with_map_name(map_name2),
        b.with_entity_list(entity_list).with_entity_list(entity_list2) == b.with_entity_list(entity_list2),
{
}

/// A builder with each part set, whatever it held before, builds: the cache has exactly the
/// parts that were set.
pub proof fn builder_with_every_part_builds(b: CacheBuilder, entity_cache: Vec<CachedEntity>, map_name: String, entity_list: u64)
    ensures
        ({
            let full = b.with_entity_cache(entity_cache).with_map_name(map_name).with_entity_list(entity_list);
            &&& full.complete()
            &&& full.entity_cache == Some(entity_cache)
            &&& full.map_name == Some(map_name)
            &&& full.entity_list == Some(entity_list)
        }),
{
}

} // verus!
