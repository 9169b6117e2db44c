//! Shapes of the PVP responses: MMR, loadout and storefront.
use vstd::prelude::*;

use crate::json::JsonValue;

verus! {

/// The answer of `/mmr/v1/players/{puuid}`, kept whole.
#[derive(Debug)]
pub struct PvpMmrResponse {
    pub raw: Vec<(String, JsonValue)>,
}

/// The answer of `/personalization/v2/players/{puuid}/playerloadout`.
#[derive(Debug)]
pub struct PlayerLoadoutResponse {
    pub subject: String,
    pub version: u64,
    pub guns: Vec<PlayerLoadoutGun>,
}

/// One weapon of a loadout.
#[derive(Debug)]
pub struct PlayerLoadoutGun {
    pub id: String,
    pub skin_id: String,
    pub skin_level_id: String,
    pub chroma_id: String,
    pub charm_instance_id: Option<String>,
    pub charm_id: Option<String>,
    pub charm_level_id: Option<String>,
    pub attachments: Vec<JsonValue>,
}

/// The answer of the storefront endpoints.
#[derive(Debug)]
pub struct StorefrontResponse {
    pub featured_bundle: Option<JsonValue>,
    pub skins_panel_layout: Option<SkinsPanelLayout>,
    pub bonus_store: Option<JsonValue>,
}

/// The daily offers of the storefront.
#[derive(Debug)]
pub struct SkinsPanelLayout {
    pub single_item_offers: Vec<String>,
    pub single_item_store_offers: Vec<StoreOffer>,
    pub single_item_offers_remaining_duration_in_seconds: Option<u64>,
}

/// One offer of the storefront; `cost` maps currency ids to amounts.
#[derive(Debug)]
pub struct StoreOffer {
    pub offer_id: String,
    pub cost: Vec<(String, JsonValue)>,
    pub rewards: Vec<StoreReward>,
}

/// One reward of an offer.
#[derive(Debug, Clone, PartialEq, Eq)]
pub struct StoreReward {
    pub item_type_id: String,
    pub item_id: String,
    pub quantity: u32,
}

/// Number of daily offer ids and of daily store offers of a storefront
/// (zero where there is no skins panel).
pub fn storefront_offer_counts(storefront: &StorefrontResponse) -> (r: (usize, usize))
    ensures
        storefront.skins_panel_layout matches Some(l) ==> r == (
            l.single_item_offers@.len() as usize,
            l.single_item_store_offers@.len() as usize,
        ),
        storefront.skins_panel_layout is None ==> r == (0usize, 0usize),
{
    match &storefront.skins_panel_layout {
        Some(layout) => (layout.single_item_offers.len(), layout.single_item_store_offers.len()),
        None => (0, 0),
    }
}

} // verus!
