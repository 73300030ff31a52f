use vstd::prelude::*;

verus! {

/// The offsets that a dump of the game's binaries gives: where the globals that the radar
/// reads stand in the game's modules, and where the fields it reads stand in the game's
/// classes. The radar reads nothing at an address that does not come from these values and
/// from pointers read out of the game.
#[derive(Clone, Copy)]
pub struct Offsets {
    // Offsets of `client.dll` globals, relative to the module's base.
    /// `dwLocalPlayerController`
    pub local_player_controller: u64,
    /// `dwLocalPlayerPawn`
    pub local_player_pawn: u64,
    /// `dwPlantedC4`
    pub planted_c4: u64,
    /// `dwGlobalVars`
    pub global_vars: u64,
    /// `dwGameRules`
    pub game_rules: u64,
    /// `dwEntityList`
    pub entity_list: u64,
    /// `dwGameEntitySystem`
    pub game_entity_system: u64,
    /// `dwGameEntitySystem_highestEntityIndex`, relative to the entity system
    pub game_entity_system_highest_entity_index: u64,
    // Offsets of `engine2.dll` globals.
    /// `dwBuildNumber`, relative to the engine module's base
    pub build_number: u64,
    /// `dwNetworkGameClient`
    pub network_game_client: u64,
    /// `dwNetworkGameClient_signOnState`, relative to the network client
    pub network_game_client_sign_on_state: u64,
    // Field offsets of the client's classes.
    /// `C_BaseEntity::m_pGameSceneNode`
    pub base_entity_game_scene_node: u64,
    /// `C_BaseEntity::m_iTeamNum`
    pub base_entity_team_num: u64,
    /// `C_BaseEntity::m_iHealth`
    pub base_entity_health: u64,
    /// `C_BaseEntity::m_nSubclassID`
    pub base_entity_subclass_id: u64,
    /// `CGameSceneNode::m_vecAbsOrigin`
    pub game_scene_node_abs_origin: u64,
    /// `CEntityInstance::m_pEntity`
    pub entity_instance_entity: u64,
    /// `CEntityIdentity::m_designerName`
    pub entity_identity_designer_name: u64,
    /// `CEntityIdentity::m_pNextByClass`
    pub entity_identity_next_by_class: u64,
    /// `CEntityIdentity::m_pPrevByClass`
    pub entity_identity_prev_by_class: u64,
    /// `CEntityIdentity::m_nameStringableIndex`
    pub entity_identity_name_stringable_index: u64,
    /// `CCSPlayerController::m_hPlayerPawn`
    pub player_controller_player_pawn: u64,
    /// `C_BasePlayerPawn::m_pWeaponServices`
    pub base_player_pawn_weapon_services: u64,
    /// `C_BasePlayerPawn::m_vOldOrigin`
    pub base_player_pawn_old_origin: u64,
    /// `CPlayer_WeaponServices::m_hMyWeapons`
    pub weapon_services_my_weapons: u64,
    /// `CCSWeaponBaseVData::m_WeaponType`
    pub weapon_base_vdata_weapon_type: u64,
    /// `C_CSPlayerPawnBase::m_angEyeAngles`
    pub player_pawn_base_eye_angles: u64,
    /// `C_CSPlayerPawnBase::m_pClippingWeapon`
    pub player_pawn_base_clipping_weapon: u64,
    /// `C_CSPlayerPawnBase::m_bIsScoped`
    pub player_pawn_base_is_scoped: u64,
    /// `C_EconEntity::m_AttributeManager`
    pub econ_entity_attribute_manager: u64,
    /// `C_AttributeContainer::m_Item`
    pub attribute_container_item: u64,
    /// `C_EconItemView::m_iItemDefinitionIndex`
    pub econ_item_view_item_definition_index: u64,
    /// `C_CSGameRules::m_bBombDropped`
    pub game_rules_bomb_dropped: u64,
    /// `C_CSGameRules::m_bBombPlanted`
    pub game_rules_bomb_planted: u64,
    /// `C_CSGameRules::m_totalRoundsPlayed`
    pub game_rules_total_rounds_played: u64,
    /// `C_CSGameRules::m_gamePhase`
    pub game_rules_game_phase: u64,
    /// `C_CSGameRules::m_bFreezePeriod`
    pub game_rules_freeze_period: u64,
    /// `C_CSGameRules::m_nRoundStartCount`
    pub game_rules_round_start_count: u64,
    /// `C_PlantedC4::m_flTimerLength`
    pub planted_c4_timer_length: u64,
    /// `C_PlantedC4::m_bBombDefused`
    pub planted_c4_bomb_defused: u64,
    /// `C_PlantedC4::m_flDefuseLength`
    pub planted_c4_defuse_length: u64,
    /// `C_PlantedC4::m_bHasExploded`
    pub planted_c4_has_exploded: u64,
    /// `C_PlantedC4::m_bBeingDefused`
    pub planted_c4_being_defused: u64,
    /// The game build that these offsets were dumped from.
    pub game_build_number: usize,
}

} // verus!
