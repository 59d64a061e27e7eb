//! The shop zones of the world and what the prompt above them shows.

use crate::blocks::BlockType;
use crate::ball::CollectedResources;
use crate::resources::ResourceCounts;
use crate::shop::{ShopItem, ShopStats};
use crate::statsbar::{spec_resource_readout, update_stats_bar_resources};
use crate::world::{ShopPanelEntityView, World};
use vstd::prelude::*;

verus! {

/// Edge length of a shop zone, in thousandths of a world unit.
pub const SHOP_PANEL_WIDTH: i64 = 95_000;

/// A zone of the world that offers one upgrade track while the paddle is
/// inside it.
#[derive(Debug)]
pub struct ShopPanel {
    /// Whether the paddle is inside the zone.
    pub enabled: bool,
    pub item: ShopItem,
    /// The name of the upgrade as the prompt shows it.
    pub upgrade: String,
    /// A zone that refills the paddle's balls in place of selling its track.
    pub is_refresh: bool,
}

/// A shop zone as the rules see it.
pub struct ShopPanelView {
    pub enabled: bool,
    pub item: ShopItem,
    pub upgrade: Seq<char>,
    pub is_refresh: bool,
}

impl View for ShopPanel {
    type V = ShopPanelView;

    open spec fn view(&self) -> ShopPanelView {
        ShopPanelView {
            enabled: self.enabled,
            item: self.item,
            upgrade: self.upgrade@,
            is_refresh: self.is_refresh,
        }
    }
}

impl Clone for ShopPanel {
    fn clone(&self) -> (copy: Self)
        ensures
            copy@ == self@,
    {
        ShopPanel {
            enabled: self.enabled,
            item: self.item,
            upgrade: self.upgrade.clone(),
            is_refresh: self.is_refresh,
        }
    }
}

/// The field of the prompt that shows what the upgrade costs in one
/// material.
#[derive(Clone, Copy, PartialEq, Eq, Debug, Structural)]
pub struct ShopResourceCost(pub BlockType);

impl ShopResourceCost {
    /// What the field shows for the cost `cost`: what the cost asks for in
    /// its material, or nothing where the cost does not name it.
    pub fn readout(&self, cost: &ResourceCounts) -> (shown: Option<u32>)
        ensures
            shown is Some <==> cost@.contains_key(self.0),
            shown matches Some(count) ==> count == cost@[self.0],
    {
        cost.get(self.0)
    }
}

/// Asks for the shop zones and the prompt to be drawn anew.
#[derive(Clone, Copy, PartialEq, Eq, Debug, Default, Structural)]
pub struct UpdateShopPanelsEvent;

/// Where a shop zone stands and what it offers.
#[derive(Clone, Copy, PartialEq, Eq, Debug, Structural)]
pub struct ShopPanelSite {
    pub item: ShopItem,
    pub x: i64,
    pub y: i64,
}

/// The shop zones of a new game, from right to left.
pub open spec fn spec_shop_sites() -> Seq<ShopPanelSite> {
    seq![
        ShopPanelSite { item: ShopItem::Speed, x: (-100_000) as i64, y: 300_000 },
        ShopPanelSite { item: ShopItem::Damage, x: (-200_000) as i64, y: 300_000 },
        ShopPanelSite { item: ShopItem::Capacity, x: (-300_000) as i64, y: 300_000 },
        ShopPanelSite { item: ShopItem::Size, x: (-400_000) as i64, y: 300_000 },
    ]
}

/// The shop zones of a new game, from right to left.
pub fn shop_sites() -> (sites: Vec<ShopPanelSite>)
    ensures
        sites@ == spec_shop_sites(),
{
    let mut sites: Vec<ShopPanelSite> = Vec::new();
    sites.push(ShopPanelSite { item: ShopItem::Speed, x: -100_000, y: 300_000 });
    sites.push(ShopPanelSite { item: ShopItem::Damage, x: -200_000, y: 300_000 });
    sites.push(ShopPanelSite { item: ShopItem::Capacity, x: -300_000, y: 300_000 });
    sites.push(ShopPanelSite { item: ShopItem::Size, x: -400_000, y: 300_000 });
    sites
}

/// The name of the upgrade that the zone of `item` shows.
pub open spec fn spec_upgrade_name(item: ShopItem) -> Seq<char> {
    match item {
        ShopItem::Speed => "Speed Upgrade"@,
        ShopItem::Damage => "Ball Damage Upgrade"@,
        ShopItem::Capacity => "Capacity Upgrade"@,
        ShopItem::Size => "Size Upgrade"@,
    }
}

impl ShopPanel {
    /// The zone of `item` as a new game has it: the paddle outside, the
    /// track on sale.
    pub fn new(item: ShopItem) -> (panel: ShopPanel)
        ensures
            panel@ == (ShopPanelView {
                enabled: false,
                item,
                upgrade: spec_upgrade_name(item),
                is_refresh: false,
            }),
    {
        let upgrade: String = match item {
            ShopItem::Speed => "Speed Upgrade".to_owned(),
            ShopItem::Damage => "Ball Damage Upgrade".to_owned(),
            ShopItem::Capacity => "Capacity Upgrade".to_owned(),
            ShopItem::Size => "Size Upgrade".to_owned(),
        };
        ShopPanel { enabled: false, item, upgrade, is_refresh: false }
    }
}

/// What the prompt says: which zone the paddle is in, and the level that
/// the zone's track has.
#[derive(Clone, Copy, PartialEq, Eq, Debug, Structural)]
pub struct ShopPrompt {
    /// Position of the zone among the shop zones. The prompt names the
    /// zone's upgrade.
    pub panel: usize,
    pub level: u8,
}

/// How the shop zones and the prompt are to be drawn.
#[derive(Debug)]
pub struct ShopPanelsDisplay {
    /// For each zone, whether it is lit. A zone that is not lit is dimmed.
    pub lit: Vec<bool>,
    /// What the prompt says; `None` where it is empty.
    pub prompt: Option<ShopPrompt>,
    /// What the cost fields show, one for each material in the order of
    /// declaration; `None` where they stay as they are.
    pub costs: Option<Vec<Option<u32>>>,
}

/// The position of the last of the first `upto` zones that the paddle is
/// in, if it is in one.
pub open spec fn spec_last_enabled(panels: Seq<ShopPanelEntityView>, upto: nat) -> Option<int>
    decreases upto,
{
    if upto == 0 || upto > panels.len() {
        None
    } else if panels[upto - 1].panel.enabled {
        Some(upto - 1)
    } else {
        spec_last_enabled(panels, (upto - 1) as nat)
    }
}

/// The position of the last of the first `upto` zones that the paddle is
/// in and whose track has a further level, if there is one.
pub open spec fn spec_last_priced(
    panels: Seq<ShopPanelEntityView>,
    stats: ShopStats,
    upto: nat,
) -> Option<int>
    decreases upto,
{
    if upto == 0 || upto > panels.len() {
        None
    } else if panels[upto - 1].panel.enabled && stats.spec_cost(panels[upto - 1].panel.item)
        is Some {
        Some(upto - 1)
    } else {
        spec_last_priced(panels, stats, (upto - 1) as nat)
    }
}

/// What the prompt says: the zone that the paddle is in, the last of them
/// where it is in more than one.
pub open spec fn spec_prompt(panels: Seq<ShopPanelEntityView>, stats: ShopStats) -> Option<
    ShopPrompt,
> {
    match spec_last_enabled(panels, panels.len()) {
        Some(i) => Some(
            ShopPrompt { panel: i as usize, level: stats.spec_level(panels[i].panel.item) },
        ),
        None => None,
    }
}

/// What the cost fields show. While the paddle is in no zone they are
/// empty. Else they show the cost of the next level of the zone that the
/// paddle is in; a zone whose track has no further level leaves them as
/// they are.
pub open spec fn spec_cost_fields(panels: Seq<ShopPanelEntityView>, stats: ShopStats) -> Option<
    Seq<Option<u32>>,
> {
    if spec_last_enabled(panels, panels.len()) is None {
        Some(spec_resource_readout(Map::empty()))
    } else {
        match spec_last_priced(panels, stats, panels.len()) {
            Some(i) => Some(spec_resource_readout(stats.spec_cost(panels[i].panel.item).unwrap())),
            None => None,
        }
    }
}

/// How the shop zones and the prompt of `world` are to be drawn.
pub fn update_shop_panels(world: &World) -> (display: ShopPanelsDisplay)
    ensures
        display.lit@.len() == world@.shop_panels.len(),
        forall|i: int|
            0 <= i < display.lit@.len() ==> display.lit@[i]
                == (#[trigger] world@.shop_panels[i]).panel.enabled,
        display.prompt == spec_prompt(world@.shop_panels, world@.shop_stats),
        display.costs is Some <==> spec_cost_fields(world@.shop_panels, world@.shop_stats)
            is Some,
        display.costs matches Some(fields) ==> Some(fields@) == spec_cost_fields(
            world@.shop_panels,
            world@.shop_stats,
        ),
{
    let mut lit: Vec<bool> = Vec::new();
    let mut prompt: Option<ShopPrompt> = None;
    let mut costs: Option<Vec<Option<u32>>> = None;
    let mut any_enabled: bool = false;
    let ghost panels = world@.shop_panels;
    let ghost stats = world@.shop_stats;
    let mut i: usize = 0;
    while i < world.shop_panels.len()
        invariant
            i <= world.shop_panels@.len(),
            panels == world@.shop_panels,
            panels.len() == world.shop_panels@.len(),
            stats == world.shop_stats,
            lit@.len() == i,
            forall|k: int| 0 <= k < i ==> lit@[k] == (#[trigger] panels[k]).panel.enabled,
            any_enabled == (spec_last_enabled(panels, i as nat) is Some),
            prompt == (match spec_last_enabled(panels, i as nat) {
                Some(k) => Some(
                    ShopPrompt { panel: k as usize, level: stats.spec_level(panels[k].panel.item) },
                ),
                None => None,
            }),
            costs is Some <==> spec_last_priced(panels, stats, i as nat) is Some,
            costs matches Some(fields) ==> fields@ == spec_resource_readout(
                stats.spec_cost(
                    panels[spec_last_priced(panels, stats, i as nat).unwrap()].panel.item,
                ).unwrap(),
            ),
        decreases world.shop_panels@.len() - i,
    {
        let enabled: bool = world.shop_panels[i].panel.enabled;
        let item: ShopItem = world.shop_panels[i].panel.item;
        lit.push(enabled);
        if enabled {
            any_enabled = true;
            prompt = Some(ShopPrompt { panel: i, level: world.shop_stats.level(item) });
            // update costs
            if let Some(cost) = world.shop_stats.cost(item) {
                let ledger = CollectedResources { counts: cost };
                costs = Some(update_stats_bar_resources(&ledger));
            }
        }
        i += 1;
    }
    if !any_enabled {
        // clear all costs
        let nothing: CollectedResources = CollectedResources::new();
        costs = Some(update_stats_bar_resources(&nothing));
    }
    ShopPanelsDisplay { lit, prompt, costs }
}

} // verus!
