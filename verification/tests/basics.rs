use radarflow::dma::address::{addr_add, addr_offset, entry_address, handle_entry, handle_slot, masked_entry, slot_address};
use radarflow::dma::bytes::{bytes_eq, is_c4_name, is_cs_player_controller_name, is_weapon_c4_name};
use radarflow::error::{decimal_string, RadarError};
use radarflow::enums::player_type::PlayerType;
use radarflow::enums::teamid::TeamID;
use radarflow::structs::connector::Connector;
use radarflow::structs::loglevel::Loglevel;

#[test]
fn connector_names() {
    assert_eq!(Connector::Qemu.to_string(), "qemu");
    assert_eq!(Connector::Kvm.to_string(), "kvm");
    assert_eq!(Connector::Pcileech.to_string(), "pcileech");
    assert_eq!(Connector::default(), Connector::Qemu);
}

#[test]
fn defaults() {
    assert_eq!(Loglevel::default(), Loglevel::Warn);
    assert_eq!(PlayerType::default(), PlayerType::Unknown);
}

#[test]
fn team_numbers() {
    assert_eq!(TeamID::from_i32(1), Some(TeamID::Spectator));
    assert_eq!(TeamID::from_i32(2), Some(TeamID::T));
    assert_eq!(TeamID::from_i32(3), Some(TeamID::CT));
    assert_eq!(TeamID::from_i32(0), None);
    assert_eq!(TeamID::from_i32(4), None);
    assert_eq!(TeamID::from_i32(-1), None);
}

#[test]
fn addresses_wrap() {
    assert_eq!(addr_add(0x1000, 0x20), 0x1020);
    assert_eq!(addr_add(u64::MAX, 2), 1);
    assert_eq!(addr_offset(0x1000, -0x10), 0xff0);
    assert_eq!(addr_offset(0x10, -0x20), u64::MAX - 0xf);
    assert_eq!(addr_offset(0x1000, 0x10), 0x1010);
}

#[test]
fn entity_list_addresses() {
    // index 0x201 is in chunk 1, slot 1
    assert_eq!(entry_address(0x1000, 0x201), 0x1000 + 8 + 16);
    assert_eq!(slot_address(0x5000, 0x201), 0x5000 + 120);
    assert_eq!(entry_address(0x1000, 5), 0x1010);
    assert_eq!(slot_address(0x5000, 5), 0x5000 + 600);
    // a handle keeps its low 15 bits
    assert_eq!(handle_entry(0x1000, 0xffff_8201), 0x1000 + 8 + 16);
    assert_eq!(handle_slot(0x5000, 0xffff_8201), 0x5000 + 120);
    assert_eq!(masked_entry(0x1000, -1), 0x1000 + 8 * 63 + 16);
}

#[test]
fn name_bytes() {
    assert!(bytes_eq(b"abc", b"abc"));
    assert!(!bytes_eq(b"abc", b"abd"));
    assert!(!bytes_eq(b"abc", b"ab"));
    assert!(is_c4_name(b"c4"));
    assert!(!is_c4_name(b"c5"));
    assert!(is_cs_player_controller_name(b"cs_player_controller\0"));
    assert!(!is_cs_player_controller_name(b"cs_player_controller"));
    assert!(!is_cs_player_controller_name(b"cs_player_controllerX"));
    assert!(!is_cs_player_controller_name(b"cs_player_pawn\0"));
    assert!(is_weapon_c4_name(b"weapon_c4\0"));
    assert!(!is_weapon_c4_name(b"xxxxxxxc4\0"));
    assert!(!is_weapon_c4_name(b"weapon_c4s"));
}

#[test]
fn decimal_text_is_to_string() {
    for n in [0usize, 7, 10, 99, 100, 14000, 1234567890, usize::MAX] {
        assert_eq!(decimal_string(n), n.to_string());
    }
}

#[test]
fn version_mismatch_message() {
    assert_eq!(
        RadarError::GameVersionMismatch(14001, 14000).version_mismatch_message(),
        Some("game build is 14001, but offsets are for 14000".to_string())
    );
    assert_eq!(RadarError::MemflowPartialu8(1).version_mismatch_message(), None);
}
