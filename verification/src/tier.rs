//! Stage 4: classifying each tile into a deploy tier by its belief score.
use vstd::prelude::*;
use crate::stage::Stage;
use crate::tile::{DeployTier, Tile, TileView, belief, tile_views};

verus! {

/// Thresholds on the belief score (fixed point, `SCORE_SCALE` is 1.0).
pub struct TierStage {
    pub live_threshold: i64,
    pub monitored_threshold: i64,
}

impl Default for TierStage {
    fn default() -> (s: Self)
        ensures
            s.live_threshold == 630_000,
            s.monitored_threshold == 420_000,
    {
        TierStage { live_threshold: 630_000, monitored_threshold: 420_000 }
    }
}

/// The tier of a tile: `Live` when its belief reaches the live threshold,
/// else `Monitored` when it reaches the monitored threshold, else
/// `HumanGated`.
pub open spec fn tier_for(stage: TierStage, t: TileView) -> DeployTier {
    let score = belief(t);
    if score >= stage.live_threshold {
        DeployTier::Live
    } else if score >= stage.monitored_threshold {
        DeployTier::Monitored
    } else {
        DeployTier::HumanGated
    }
}

/// A tile with its tier set; nothing else changes.
pub open spec fn tiered(stage: TierStage, t: TileView) -> TileView {
    TileView { tier: Some(tier_for(stage, t)), ..t }
}

/// Every tile of `s`, tiered.
pub open spec fn tier_spec(stage: TierStage, s: Seq<TileView>) -> Seq<TileView> {
    s.map_values(|t: TileView| tiered(stage, t))
}

impl Stage for TierStage {
    type Input = Vec<Tile>;
    type Output = Vec<Tile>;

    fn name(&self) -> (s: &'static str)
        ensures
            s@ == "TIER"@,
    {
        "TIER"
    }

    fn process(&self, tiles: Vec<Tile>) -> (out: Vec<Tile>)
        ensures
            tile_views(out@) == tier_spec(*self, tile_views(tiles@)),
    {
        let ghost all = tile_views(tiles@);
        let mut out: Vec<Tile> = Vec::new();
        for tile in it: tiles
            invariant
                it.seq() == tiles@,
                all == tile_views(tiles@),
                tile_views(out@) == tier_spec(*self, all.take(it.index() as int)),
        {
            let ghost i = it.index() as int;
            let ghost before = out@;
            let mut t = tile;
            let score = t.belief_score();
            t.tier = Some(
                if score >= self.live_threshold {
                    DeployTier::Live
                } else if score >= self.monitored_threshold {
                    DeployTier::Monitored
                } else {
                    DeployTier::HumanGated
                },
            );
            out.push(t);
            proof {
                assert(all.take(i + 1) =~= all.take(i).push(tile@));
                assert(tile_views(out@) =~= tile_views(before).push(t@));
                assert(tier_spec(*self, all.take(i + 1)) =~= tier_spec(*self, all.take(i)).push(
                    tiered(*self, tile@),
                ));
            }
        }
        proof {
            assert(all.take(all.len() as int) =~= all);
        }
        out
    }
}

} // verus!
