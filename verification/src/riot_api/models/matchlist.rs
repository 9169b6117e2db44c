//! Shapes of the Henrik match list, as far as they hold no fractional
//! numbers. What the player statistics read of an entry is held by
//! `MatchEntry`; the rest of an entry stays with the caller.
use vstd::prelude::*;


verus! {

/// What a match list entry says of the match.
#[derive(Debug, Clone)]
pub struct MatchMetadata {
    pub map: String,
    pub game_version: String,
    pub game_length: i64,
    pub game_start: i64,
    pub game_start_patched: String,
    pub rounds_played: i32,
    pub mode: String,
    pub mode_id: String,
    pub queue: String,
    pub season_id: String,
    pub platform: String,
    pub matchid: String,
    pub premier_info: MatchPremierInfo,
    pub region: String,
    pub cluster: String,
}

/// The Premier ids of a match.
#[derive(Debug, Clone)]
pub struct MatchPremierInfo {
    pub tournament_id: Option<String>,
    pub matchup_id: Option<String>,
}

/// Time a player spent in the session.
#[derive(Debug, Clone)]
pub struct MatchSessionPlaytime {
    pub minutes: i32,
    pub seconds: i32,
    pub milliseconds: i64,
}

/// Card images of a player.
#[derive(Debug, Clone)]
pub struct MatchPlayerAssetsCard {
    pub small: String,
    pub large: String,
    pub wide: String,
}

/// Agent images of a player.
#[derive(Debug, Clone)]
pub struct MatchPlayerAssetsAgent {
    pub small: String,
    pub full: String,
    pub bust: String,
    pub killfeed: String,
}

/// Images of a player.
#[derive(Debug, Clone)]
pub struct MatchPlayerAssets {
    pub card: MatchPlayerAssetsCard,
    pub agent: MatchPlayerAssetsAgent,
}

/// Operating system of a player.
#[derive(Debug, Clone)]
pub struct MatchPlayerPlatformOS {
    pub name: String,
    pub version: String,
}

/// Platform of a player.
#[derive(Debug, Clone)]
pub struct MatchPlayerPlatform {
    pub _type: String,
    pub os: MatchPlayerPlatformOS,
}

/// Ability uses of a player.
#[derive(Debug, Clone)]
pub struct MatchPlayerAbilityCasts {
    pub c_cast: Option<i32>,
    pub q_cast: Option<i32>,
    pub e_cast: Option<i32>,
    pub x_cast: Option<i32>,
}

/// Score and shots of a player in a match.
#[derive(Debug, Clone)]
pub struct MatchPlayerStats {
    pub score: i32,
    pub kills: i32,
    pub deaths: i32,
    pub assists: i32,
    pub bodyshots: i32,
    pub headshots: i32,
    pub legshots: i32,
}

/// An observer of a match.
#[derive(Debug, Clone)]
pub struct MatchObserver {
    pub puuid: String,
    pub name: String,
    pub tag: String,
    pub platform: MatchPlayerPlatform,
    pub session_playtime: MatchSessionPlaytime,
    pub team: String,
    pub level: i32,
    pub player_card: String,
    pub player_title: String,
    pub party_id: String,
}

/// A coach of a match.
#[derive(Debug, Clone)]
pub struct MatchCoach {
    pub puuid: String,
    pub team: String,
}

/// Colours and images of a Premier roster.
#[derive(Debug, Clone)]
pub struct MatchTeaMRoasterCustomization {
    pub icon: String,
    pub image: String,
    pub primary: String,
    pub secondary: String,
    pub tertiary: String,
}

/// A Premier roster.
#[derive(Debug, Clone)]
pub struct MatchTeamRoaster {
    pub members: Vec<String>,
    pub name: String,
    pub tag: String,
    pub customization: MatchTeaMRoasterCustomization,
}

/// The result of one team.
#[derive(Debug, Clone)]
pub struct MatchTeamData {
    pub has_won: bool,
    pub rounds_won: i32,
    pub rounds_lost: i32,
    pub roster: Option<MatchTeamRoaster>,
}

/// The results of both teams.
#[derive(Debug, Clone)]
pub struct MatchTeams {
    pub red: MatchTeamData,
    pub blue: MatchTeamData,
}

/// A point on the map.
#[derive(Debug, Clone)]
pub struct MatchRoundPlantEventsPlantLocation {
    pub x: i32,
    pub y: i32,
}

/// The player who planted or defused.
#[derive(Debug, Clone)]
pub struct MatchRoundPlantEventsPlantedBy {
    pub puuid: String,
    pub display_name: String,
    pub team: String,
}

/// Damage dealt to one player in a round.
#[derive(Debug, Clone)]
pub struct MatchRoundDamageEvents {
    pub receiver_puuid: String,
    pub receiver_display_name: String,
    pub receiver_team: String,
    pub bodyshots: i32,
    pub damage: i32,
    pub headshots: i32,
    pub legshots: i32,
}

/// Images of a weapon.
#[derive(Debug, Clone)]
pub struct MatchRoundKillEventsWeaponAssets {
    pub display_icon: Option<String>,
    pub killfeed_icon: Option<String>,
}

/// A player who assisted a kill.
#[derive(Debug, Clone)]
pub struct MatchRoundKillEventsAssistants {
    pub assistant_puuid: String,
    pub assistant_display_name: String,
    pub assistant_team: String,
}

/// The weapon a player bought.
#[derive(Debug, Clone)]
pub struct MatchRoundPlayerStatsEconomyWeapon {
    pub id: Option<String>,
    pub name: Option<String>,
    pub assets: Option<MatchRoundKillEventsWeaponAssets>,
}

/// Images of an armor.
#[derive(Debug, Clone)]
pub struct MatchRoundPlayerStatsEconomyArmorAssets {
    pub display_icon: Option<String>,
}

/// The armor a player bought.
#[derive(Debug, Clone)]
pub struct MatchRoundPlayerStatsEconomyArmor {
    pub id: Option<String>,
    pub name: Option<String>,
    pub assets: MatchRoundPlayerStatsEconomyArmorAssets,
}

/// What a player spent in a round.
#[derive(Debug, Clone)]
pub struct MatchRoundPlayerStatsEconomy {
    pub loadout_value: i32,
    pub weapon: MatchRoundPlayerStatsEconomyWeapon,
    pub armor: MatchRoundPlayerStatsEconomyArmor,
    pub remaining: i32,
    pub spent: i32,
}

/// What the player statistics read of one player of a match.
#[derive(Debug, Clone)]
pub struct EntryPlayer {
    pub puuid: String,
    pub team: String,
    pub stats: MatchPlayerStats,
    pub damage_made: i32,
}

/// What the player statistics read of one match list entry.
#[derive(Debug, Clone)]
pub struct MatchEntry {
    pub is_available: bool,
    pub metadata: Option<MatchMetadata>,
    pub teams: Option<MatchTeams>,
    pub players: Option<Vec<EntryPlayer>>,
}

} // verus!
