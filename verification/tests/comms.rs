use radarflow::comms::{BombData, PlayerData, RadarData};
use radarflow::enums::player_type::PlayerType;
use radarflow::radarflow::comms as rcomms;
use radarflow::structs::vec3::Vec3;

#[test]
fn empty_radar_data_has_nothing() {
    let d = RadarData::empty(60);
    assert_eq!(d.freq, 60);
    assert!(!d.ingame);
    assert_eq!(d.map_name, "");
    assert!(d.player_data.is_empty());
    assert!(d.bomb_data == BombData::default());
}

#[test]
fn bomb_default_is_all_zero() {
    let b = BombData::default();
    assert!(!b.planted && !b.dropped && !b.defused && !b.exploded && !b.being_defused && !b.can_defuse);
    assert!(b.pos == Vec3 { x: 0, y: 0, z: 0 });
    assert_eq!(b.defuse_length, 0.0f32.to_bits());
    assert_eq!(b.timeleft, 0);
    assert_eq!(b.defuse_end, 0);
}

#[test]
fn radar_data_new_keeps_its_parts() {
    let p = PlayerData {
        pos: Vec3 { x: 1.5f32.to_bits(), y: 2.0f32.to_bits(), z: 0 },
        yaw: 90.0f32.to_bits(),
        player_type: PlayerType::Enemy,
        has_bomb: true,
        has_awp: false,
        is_scoped: false,
    };
    let mut bomb = BombData::default();
    bomb.planted = true;
    let d = RadarData::new(128, true, "de_inferno".to_string(), vec![p], bomb);
    assert_eq!(d.freq, 128);
    assert!(d.ingame);
    assert_eq!(d.map_name, "de_inferno");
    assert!(d.player_data == vec![p]);
    assert!(d.bomb_data.planted);
    assert_eq!(f32::from_bits(d.player_data[0].yaw), 90.0);
}

#[test]
fn radarflow_radar_data() {
    let e = rcomms::RadarData::empty();
    assert!(!e.ingame && e.map_name.is_empty() && e.entity_data.is_empty());
    let bomb = rcomms::EntityData::Bomb(rcomms::BombData::new(Vec3::default(), true));
    let player = rcomms::EntityData::Player(rcomms::PlayerData::new(Vec3::default(), 45.0f32.to_bits(), PlayerType::Team, false));
    let d = rcomms::RadarData::new(true, "de_nuke".to_string(), vec![bomb, player]);
    assert!(d.ingame);
    assert_eq!(d.map_name, "de_nuke");
    assert!(d.entity_data == vec![bomb, player]);
}
