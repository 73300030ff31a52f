use radarflow::csflow::gamerules::GameRules;
use radarflow::csflow::global_vars::GlobalVars;
use radarflow::dma::cache::{Cache, CacheBuildError, CacheBuilder, CachedEntity, CACHE_LIFETIME_NANOS};
use radarflow::enums::player_type::PlayerType;
use radarflow::radarflow::cache as rcache;
use radarflow::radarflow::cache::CacheBuildError as E;

#[test]
fn dma_cache_lives_a_quarter_second() {
    assert_eq!(CACHE_LIFETIME_NANOS, 250_000_000);
    assert!(Cache::valid_after(0));
    assert!(Cache::valid_after(250_000_000));
    assert!(!Cache::valid_after(250_000_001));
}

#[test]
fn dma_cache_new_invalid_is_not_valid() {
    let c = Cache::new_invalid();
    assert!(!c.is_valid());
    assert!(c.entity_cache.is_empty());
    assert_eq!(c.map_name, "");
    assert_eq!(c.entity_list, 0);
}

#[test]
fn dma_cache_builder_needs_every_part() {
    assert!(matches!(CacheBuilder::new().build(), Err(CacheBuildError::EntityCacheNotSet)));
    assert!(matches!(CacheBuilder::new().entity_cache(Vec::new()).build(), Err(CacheBuildError::MapNameNotSet)));
    assert!(matches!(
        CacheBuilder::new().entity_cache(Vec::new()).map_name("de_dust2".to_string()).build(),
        Err(CacheBuildError::EntityListNotSet)
    ));
    assert_eq!(CacheBuildError::MapNameNotSet.message(), "map_name not set on builder");
}

#[test]
fn dma_cache_builder_builds_a_fresh_cache() {
    let entities = vec![CachedEntity::Player { ptr: 0x1000, player_type: PlayerType::Local }, CachedEntity::Bomb { ptr: 0x2000 }];
    let mut c = CacheBuilder::new().entity_cache(entities).map_name("de_mirage".to_string()).entity_list(0xdead_0000).build().ok().unwrap();
    assert!(c.is_valid());
    assert_eq!(c.map_name(), "de_mirage");
    assert_eq!(c.entity_list(), 0xdead_0000);
    let copy = c.entity_cache();
    assert_eq!(copy.len(), 2);
    assert!(copy[0] == CachedEntity::Player { ptr: 0x1000, player_type: PlayerType::Local });
    assert!(copy[1] == CachedEntity::Bomb { ptr: 0x2000 });
}

#[test]
fn radarflow_cache_lives_three_minutes_while_valid() {
    assert_eq!(rcache::CACHE_LIFETIME_NANOS, 180_000_000_000);
    assert!(rcache::Cache::valid_after(true, 180_000_000_000));
    assert!(!rcache::Cache::valid_after(true, 180_000_000_001));
    assert!(!rcache::Cache::valid_after(false, 0));
}

#[test]
fn radarflow_cache_builder_needs_every_part() {
    assert!(matches!(rcache::CacheBuilder::new().build(), Err(E::EntityCacheNotSet)));
    assert!(matches!(rcache::CacheBuilder::new().entity_cache(Vec::new()).build(), Err(E::EntityListNotSet)));
    assert!(matches!(rcache::CacheBuilder::new().entity_cache(Vec::new()).entity_list(1).build(), Err(E::GlobalsNotSet)));
    assert!(matches!(
        rcache::CacheBuilder::new().entity_cache(Vec::new()).entity_list(1).globals(GlobalVars(2)).build(),
        Err(E::GamerulesNotSet)
    ));
    assert_eq!(E::GlobalsNotSet.message(), "globals not set on builder");
}

#[test]
fn radarflow_cache_invalidate_forces_a_rebuild() {
    let mut c = rcache::CacheBuilder::new()
        .entity_cache(vec![CachedEntity::Bomb { ptr: 7 }])
        .entity_list(0x10)
        .globals(GlobalVars(0x20))
        .gamerules(GameRules(0x30))
        .build()
        .ok()
        .unwrap();
    assert!(c.is_valid());
    c.invalidate();
    assert!(!c.is_valid());
    assert_eq!(c.entity_list(), 0x10);
    assert_eq!(c.globals().0, 0x20);
    assert_eq!(c.gamerules().0, 0x30);
    assert!(c.entity_cache() == vec![CachedEntity::Bomb { ptr: 7 }]);
}

#[test]
fn radarflow_cache_new_invalid_is_not_valid() {
    let c = rcache::Cache::new_invalid();
    assert!(!c.is_valid());
    assert_eq!(c.entity_list, 0);
}

#[test]
fn dma_cache_builder_any_order_last_setter_wins() {
    let mut c = CacheBuilder::new()
        .entity_list(1)
        .map_name("de_nuke".to_string())
        .entity_cache(Vec::new())
        .entity_list(0xbeef)
        .map_name("de_inferno".to_string())
        .entity_cache(vec![CachedEntity::Bomb { ptr: 9 }])
        .build()
        .ok()
        .unwrap();
    assert!(c.is_valid());
    assert_eq!(c.map_name(), "de_inferno");
    assert_eq!(c.entity_list(), 0xbeef);
    assert!(c.entity_cache() == vec![CachedEntity::Bomb { ptr: 9 }]);
}

#[test]
fn radarflow_cache_builder_any_order_last_setter_wins() {
    let mut c = rcache::CacheBuilder::new()
        .gamerules(GameRules(1))
        .globals(GlobalVars(2))
        .entity_list(3)
        .entity_cache(Vec::new())
        .gamerules(GameRules(0x30))
        .entity_list(0x10)
        .build()
        .ok()
        .unwrap();
    assert!(c.is_valid());
    assert_eq!(c.entity_list(), 0x10);
    assert_eq!(c.globals().0, 2);
    assert_eq!(c.gamerules().0, 0x30);
    assert!(c.entity_cache().is_empty());
}
