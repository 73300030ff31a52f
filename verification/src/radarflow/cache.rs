use vstd::prelude::*;
use crate::csflow::gamerules::GameRules;
use crate::csflow::global_vars::GlobalVars;
use crate::dma::clock::{nanos_since, std_now};

pub use crate::dma::cache::CachedEntity;

verus! {

/// How long a built cache stays valid: three minutes, in nanoseconds.
pub const CACHE_LIFETIME_NANOS: u128 = 180_000_000_000;

/// What the radar keeps between rebuilds: the entities it follows, the entity list, the
/// global variables and the game rules. A built cache is valid for three minutes, until it
/// is invalidated.
pub struct Cache {
    /// When the cache was built; `None` for a cache that was never built.
    pub timestamp: Option<std::time::Instant>,
    pub valid: bool,
    pub entity_cache: Vec<CachedEntity>,
    pub entity_list: u64,
    pub globals: GlobalVars,
    pub gamerules: GameRules,
}

/// Why a cache could not be built: the first part that was not set.
#[derive(Clone, Copy, Debug, PartialEq, Eq, Structural)]
pub enum CacheBuildError {
    EntityCacheNotSet,
    EntityListNotSet,
    GlobalsNotSet,
    GamerulesNotSet,
}

impl CacheBuildError {
    /// The error's message, as `"<part> not set on builder"`.
    pub fn message(&self) -> (r: &'static str)
        ensures
            r@ == match self {
                CacheBuildError::EntityCacheNotSet => "entity_cache not set on builder"@,
                CacheBuildError::EntityListNotSet => "entity_list not set on builder"@,
                CacheBuildError::GlobalsNotSet => "globals not set on builder"@,
                CacheBuildError::GamerulesNotSet => "gamerules not set on builder"@,
            },
    {
        match self {
            CacheBuildError::EntityCacheNotSet => "entity_cache not set on builder",
            CacheBuildError::EntityListNotSet => "entity_list not set on builder",
            CacheBuildError::GlobalsNotSet => "globals not set on builder",
            CacheBuildError::GamerulesNotSet => "gamerules not set on builder",
        }
    }
}

/// The same cache, marked for a rebuild.
pub open spec fn invalidated(c: Cache) -> Cache {
    Cache {
        timestamp: c.timestamp,
        valid: false,
        entity_cache: c.entity_cache,
        entity_list: c.entity_list,
        globals: c.globals,
        gamerules: c.gamerules,
    }
}

impl Cache {
    /// Whether a cache that was valid when built, `elapsed_nanos` nanoseconds ago, still is:
    /// at most three minutes.
    pub fn valid_after(valid: bool, elapsed_nanos: u128) -> (r: bool)
        ensures
            r == (valid && elapsed_nanos <= CACHE_LIFETIME_NANOS),
    {
        if valid {
            if elapsed_nanos > CACHE_LIFETIME_NANOS {
                return false;
            }
            true
        } else {
            false
        }
    }

    /// Whether the cache is valid: built, not invalidated since, at most three minutes ago
    /// (the clock decides the last).
    pub fn is_valid(&self) -> (r: bool)
        ensures
            r ==> self.valid,
            self.timestamp is None ==> !r,
    {
        match &self.timestamp {
            None => false,
            Some(stamp) => {
                if self.valid {
                    Cache::valid_after(self.valid, nanos_since(stamp))
                } else {
                    false
                }
            },
        }
    }

    /// A cache that is not valid, to be rebuilt at the first poll.
    pub fn new_invalid() -> (r: Cache)
        ensures
            !r.valid,
            r.timestamp is None,
            r.entity_cache@.len() == 0,
            r.entity_list == 0,
            r.globals.0 == 0,
            r.gamerules.0 == 0,
    {
        Cache {
            timestamp: None,
            valid: false,
            entity_cache: Vec::new(),
            entity_list: 0,
            globals: GlobalVars(0),
            gamerules: GameRules(0),
        }
    }

    /// Marks the cache for a rebuild.
    pub fn invalidate(&mut self)
        ensures
            *final(self) == invalidated(*old(self)),
    {
        self.valid = false;
    }

    /// A copy of the entities the cache follows.
    pub fn entity_cache(&mut self) -> (r: Vec<CachedEntity>)
        ensures
            r@ == old(self).entity_cache@,
            *final(self) == *old(self),
    {
        let mut out: Vec<CachedEntity> = Vec::new();
        let mut i: usize = 0;
        while i < self.entity_cache.len()
            invariant
                i <= self.entity_cache@.len(),
                out@ == self.entity_cache@.subrange(0, i as int),
            decreases self.entity_cache@.len() - i,
        {
            out.push(self.entity_cache[i]);
            i += 1;
        }
        out
    }

    pub fn entity_list(&self) -> (r: u64)
        ensures
            r == self.entity_list,
    {
        self.entity_list
    }

    pub fn globals(&self) -> (r: GlobalVars)
        ensures
            r == self.globals,
    {
        self.globals
    }

    pub fn gamerules(&self) -> (r: GameRules)
        ensures
            r == self.gamerules,
    {
        self.gamerules
    }
}

/// Builds a [`Cache`] from its parts; every part must be set.
pub struct CacheBuilder {
    pub entity_cache: Option<Vec<CachedEntity>>,
    pub entity_list: Option<u64>,
    pub globals: Option<GlobalVars>,
    pub gamerules: Option<GameRules>,
}

impl CacheBuilder {
    /// A builder with no part set.
    pub fn new() -> (r: CacheBuilder)
        ensures
            r.entity_cache is None,
            r.entity_list is None,
            r.globals is None,
            r.gamerules is None,
    {
        CacheBuilder { entity_cache: None, entity_list: None, globals: None, gamerules: None }
    }

    /// The builder with its entity cache set to `v` and its other parts kept.
    pub open spec fn with_entity_cache(self, v: Vec<CachedEntity>) -> CacheBuilder {
        CacheBuilder { entity_cache: Some(v), entity_list: self.entity_list, globals: self.globals, gamerules: self.gamerules }
    }

    /// The builder with its entity list set to `v` and its other parts kept.
    pub open spec fn with_entity_list(self, v: u64) -> CacheBuilder {
        CacheBuilder { entity_cache: self.entity_cache, entity_list: Some(v), globals: self.globals, gamerules: self.gamerules }
    }

    /// The builder with its globals set to `v` and its other parts kept.
    pub open spec fn with_globals(self, v: GlobalVars) -> CacheBuilder {
        CacheBuilder { entity_cache: self.entity_cache, entity_list: self.entity_list, globals: Some(v), gamerules: self.gamerules }
    }

    /// The builder with its game rules set to `v` and its other parts kept.
    pub open spec fn with_gamerules(self, v: GameRules) -> CacheBuilder {
        CacheBuilder { entity_cache: self.entity_cache, entity_list: self.entity_list, globals: self.globals, gamerules: Some(v) }
    }

    /// Whether every part is set, so that [`CacheBuilder::build`] succeeds.
    pub open spec fn complete(self) -> bool {
        self.entity_cache is Some && self.entity_list is Some && self.globals is Some && self.gamerules is Some
    }

    pub fn entity_cache(self, entity_cache: Vec<CachedEntity>) -> (r: CacheBuilder)
        ensures
            r == self.with_entity_cache(entity_cache),
    {
        CacheBuilder { entity_cache: Some(entity_cache), ..self }
    }

    pub fn entity_list(self, entity_list: u64) -> (r: CacheBuilder)
        ensures
            r == self.with_entity_list(entity_list),
    {
        CacheBuilder { entity_list: Some(entity_list), ..self }
    }

    pub fn globals(self, globals: GlobalVars) -> (r: CacheBuilder)
        ensures
            r == self.with_globals(globals),
    {
        CacheBuilder { globals: Some(globals), ..self }
    }

    pub fn gamerules(self, gamerules: GameRules) -> (r: CacheBuilder)
        ensures
            r == self.with_gamerules(gamerules),
    {
        CacheBuilder { gamerules: Some(gamerules), ..self }
    }

    /// The cache with the parts set, stamped now and valid; the first part not set (entity
    /// cache, entity list, globals, game rules, in that order) is the error.
    pub fn build(self) -> (r: Result<Cache, CacheBuildError>)
        ensures
            r is Ok <==> self.complete(),
            match r {
                Ok(cache) => {
                    &&& self.entity_cache == Some(cache.entity_cache)
                    &&& self.entity_list == Some(cache.entity_list)
                    &&& self.globals == Some(cache.globals)
                    &&& self.gamerules == Some(cache.gamerules)
                    &&& cache.valid
                    &&& cache.timestamp is Some
                },
                Err(CacheBuildError::EntityCacheNotSet) => self.entity_cache is None,
                Err(CacheBuildError::EntityListNotSet) => self.entity_cache is Some && self.entity_list is None,
                Err(CacheBuildError::GlobalsNotSet) => self.entity_cache is Some && self.entity_list is Some && self.globals is None,
                Err(CacheBuildError::GamerulesNotSet) => self.entity_cache is Some && self.entity_list is Some
                    && self.globals is Some && self.gamerules is None,
            },
    {
        let timestamp = std_now();
        let entity_cache = match self.entity_cache {
            Some(v) => v,
            None => return Err(CacheBuildError::EntityCacheNotSet),
        };
        let entity_list = match self.entity_list {
            Some(v) => v,
            None => return Err(CacheBuildError::EntityListNotSet),
        };
        let globals = match self.globals {
            Some(v) => v,
            None => return Err(CacheBuildError::GlobalsNotSet),
        };
        let gamerules = match self.gamerules {
            Some(v) => v,
            None => return Err(CacheBuildError::GamerulesNotSet),
        };
        Ok(Cache { timestamp: Some(timestamp), valid: true, entity_cache, entity_list, globals, gamerules })
    }
}

/// The builder's setters may be called in any order: setting two different parts gives the
/// same builder either way round.
pub proof fn builder_setters_commute(b: CacheBuilder, entity_cache: Vec<CachedEntity>, entity_list: u64, globals: GlobalVars, gamerules: GameRules)
    ensures
        b.with_entity_cache(entity_cache).with_entity_list(entity_list) == b.with_entity_list(entity_list).with_entity_cache(entity_cache),
        b.with_entity_cache(entity_cache).with_globals(globals) == b.with_globals(globals).with_entity_cache(entity_cache),
        b.with_entity_cache(entity_cache).with_gamerules(gamerules) == b.with_gamerules(gamerules).with_entity_cache(entity_cache),
        b.with_entity_list(entity_list).with_globals(globals) == b.with_globals(globals).with_entity_list(entity_list),
        b.with_entity_list(entity_list).with_gamerules(gamerules) == b.with_gamerules(gamerules).with_entity_list(entity_list),
        b.with_globals(globals).with_gamerules(gamerules) == b.with_gamerules(gamerules).with_globals(globals),
{
}

/// Setting a part again replaces the value set before.
pub proof fn builder_last_set_wins(
    b: CacheBuilder,
    entity_cache: Vec<CachedEntity>,
    entity_cache2: Vec<CachedEntity>,
    entity_list: u64,
    entity_list2: u64,
    globals: GlobalVars,
    globals2: GlobalVars,
    gamerules: GameRules,
    gamerules2: GameRules,
)
    ensures
        b.with_entity_cache(entity_cache).with_entity_cache(entity_cache2) == b.with_entity_cache(entity_cache2),
        b.with_entity_list(entity_list).with_entity_list(entity_list2) == b.with_entity_list(entity_list2),
        b.with_globals(globals).with_globals(globals2) == b.with_globals(globals2),
        b.with_gamerules(gamerules).with_gamerules(gamerules2) == b.with_gamerules(gamerules2),
{
}

/// A builder with each part set, whatever it held before, builds: the cache has exactly the
/// parts that were set.
pub proof fn builder_with_every_part_builds(b: CacheBuilder, entity_cache: Vec<CachedEntity>, entity_list: u64, globals: GlobalVars, gamerules: GameRules)
    ensures
        ({
            let full = b.with_entity_cache(entity_cache).with_entity_list(entity_list).with_globals(globals).with_gamerules(gamerules);
            &&& full.complete()
            &&& full.entity_cache == Some(entity_cache)
            &&& full.entity_list == Some(entity_list)
            &&& full.globals == Some(globals)
            &&& full.gamerules == Some(gamerules)
        }),
{
}

} // verus!
