//! Stage 5: committing tiles, counting them per tier and measuring how much
//! smaller they are than the model they stand for.
use vstd::prelude::*;
use crate::stage::Stage;
use crate::tile::{DeployTier, Tile, TileView, rejection_views, tile_views};

verus! {

/// The model the tiles compress.
pub struct CommitStage {
    /// Simulated model size in bytes (2.2B params × 2 bytes ≈ 4.4 GB)
    pub model_bytes: u64,
}

impl Default for CommitStage {
    fn default() -> (s: Self)
        ensures
            s.model_bytes == 4_400_000_000,
    {
        // 2.2B model at 2 bytes/param = 4.4 GB; 880:1 compression leaves
        // 4_400_000_000 / 880 = 5_000_000 (5 MB tile budget)
        CommitStage { model_bytes: 4_400_000_000 }
    }
}

/// How many tiles fell in each tier; `unknown` counts tiles with no tier.
#[derive(Debug, Clone)]
pub struct TierDistribution {
    pub live: usize,
    pub monitored: usize,
    pub human_gated: usize,
    pub unknown: usize,
}

/// The number of tiles of `s` whose tier is `key`.
pub open spec fn count_tier(s: Seq<TileView>, key: Option<DeployTier>) -> nat
    decreases s.len(),
{
    if s.len() == 0 {
        0
    } else {
        count_tier(s.drop_last(), key) + if s.last().tier == key { 1nat } else { 0nat }
    }
}

/// The sum of the byte sizes of the tiles of `s`.
pub open spec fn total_bytes(s: Seq<TileView>) -> nat
    decreases s.len(),
{
    if s.len() == 0 {
        0
    } else {
        total_bytes(s.drop_last()) + s.last().byte_size as nat
    }
}

/// The compression ratio `model / total` in thousandths, rounded up, so
/// that it is positive whenever both sizes are; 0 when there are no tile
/// bytes.
pub open spec fn ratio_milli(model: nat, total: nat) -> nat {
    if total > 0 {
        let scaled = model * 1000;
        if scaled % total == 0 {
            scaled / total
        } else {
            scaled / total + 1
        }
    } else {
        0
    }
}

/// The ratio reads 0 exactly when there are no tile bytes or the model is
/// empty.
pub proof fn ratio_is_zero_only_without_bytes(model: nat, total: nat)
    ensures
        (ratio_milli(model, total) == 0) <==> (total == 0 || model == 0),
{
    if total > 0 {
        let scaled = model * 1000;
        vstd::arithmetic::div_mod::lemma_fundamental_div_mod(scaled as int, total as int);
        if model == 0 {
            assert(scaled == 0);
            vstd::arithmetic::div_mod::lemma_small_mod(0, total);
        } else if scaled % total == 0 {
            assert(scaled / total > 0) by (nonlinear_arith)
                requires
                    scaled == total * (scaled / total) + scaled % total,
                    scaled % total == 0,
                    scaled > 0,
                    total > 0,
            ;
        }
    }
}

impl TierDistribution {
    /// The count kept for `key`.
    pub open spec fn bucket(&self, key: Option<DeployTier>) -> usize {
        match key {
            Some(DeployTier::Live) => self.live,
            Some(DeployTier::Monitored) => self.monitored,
            Some(DeployTier::HumanGated) => self.human_gated,
            None => self.unknown,
        }
    }

    /// The number of tiers with at least one tile.
    pub open spec fn occupied(&self) -> nat {
        (if self.live > 0 { 1nat } else { 0nat }) + (if self.monitored > 0 { 1nat } else { 0nat })
            + (if self.human_gated > 0 { 1nat } else { 0nat }) + (if self.unknown > 0 { 1nat } else { 0nat })
    }

    /// Whether the counts are those of the tiers of `s`.
    pub open spec fn counts(&self, s: Seq<TileView>) -> bool {
        &&& self.live == count_tier(s, Some(DeployTier::Live))
        &&& self.monitored == count_tier(s, Some(DeployTier::Monitored))
        &&& self.human_gated == count_tier(s, Some(DeployTier::HumanGated))
        &&& self.unknown == count_tier(s, None)
    }

    /// The count for `key`, or `None` when no tile has that tier.
    pub fn get(&self, key: Option<DeployTier>) -> (r: Option<usize>)
        ensures
            r == (if self.bucket(key) > 0 { Some(self.bucket(key)) } else { None::<usize> }),
            key == Some(DeployTier::Live) ==> r == (if self.live > 0 {
                Some(self.live)
            } else {
                None::<usize>
            }),
            key == Some(DeployTier::Monitored) ==> r == (if self.monitored > 0 {
                Some(self.monitored)
            } else {
                None::<usize>
            }),
            key == Some(DeployTier::HumanGated) ==> r == (if self.human_gated > 0 {
                Some(self.human_gated)
            } else {
                None::<usize>
            }),
            key == None::<DeployTier> ==> r == (if self.unknown > 0 {
                Some(self.unknown)
            } else {
                None::<usize>
            }),
    {
        let n = match key {
            Some(DeployTier::Live) => self.live,
            Some(DeployTier::Monitored) => self.monitored,
            Some(DeployTier::HumanGated) => self.human_gated,
            None => self.unknown,
        };
        if n > 0 {
            Some(n)
        } else {
            None
        }
    }

    /// The number of tiers that hold at least one tile.
    pub fn len(&self) -> (n: usize)
        ensures
            n == self.occupied(),
    {
        let mut n: usize = 0;
        if self.live > 0 {
            n = n + 1;
        }
        if self.monitored > 0 {
            n = n + 1;
        }
        if self.human_gated > 0 {
            n = n + 1;
        }
        if self.unknown > 0 {
            n = n + 1;
        }
        n
    }

    /// Whether no tier holds a tile.
    pub fn is_empty(&self) -> (b: bool)
        ensures
            b == (self.occupied() == 0),
    {
        self.live == 0 && self.monitored == 0 && self.human_gated == 0 && self.unknown == 0
    }
}

/// What the commit stage hands back.
pub struct CommitOutput {
    pub committed: Vec<Tile>,
    pub rejected: Vec<(Tile, String)>,
    /// The sum of the committed tiles' byte sizes.
    pub total_tile_bytes: u128,
    /// `model_bytes / total_tile_bytes` in thousandths, rounded up; 0 when
    /// no bytes were committed or the model is empty.
    pub compression_ratio_milli: u128,
    pub tier_distribution: TierDistribution,
}

proof fn lemma_total_step(s: Seq<TileView>, i: int)
    requires
        0 <= i < s.len(),
    ensures
        total_bytes(s.take(i + 1)) == total_bytes(s.take(i)) + s[i].byte_size,
        forall|key: Option<DeployTier>|
            #[trigger] count_tier(s.take(i + 1), key) == count_tier(s.take(i), key) + if s[i].tier
                == key {
                1nat
            } else {
                0nat
            },
{
    assert(s.take(i + 1).drop_last() =~= s.take(i));
}

impl Stage for CommitStage {
    type Input = (Vec<Tile>, Vec<(Tile, String)>);
    type Output = CommitOutput;

    fn name(&self) -> (s: &'static str)
        ensures
            s@ == "COMMIT"@,
    {
        "COMMIT"
    }

    fn process(&self, input: (Vec<Tile>, Vec<(Tile, String)>)) -> (out: CommitOutput)
        ensures
            tile_views(out.committed@) == tile_views(input.0@),
            rejection_views(out.rejected@) == rejection_views(input.1@),
            out.total_tile_bytes == total_bytes(tile_views(input.0@)),
            out.compression_ratio_milli == ratio_milli(
                self.model_bytes as nat,
                total_bytes(tile_views(input.0@)),
            ),
            (out.compression_ratio_milli == 0) <==> (out.total_tile_bytes == 0 || self.model_bytes
                == 0),
            out.tier_distribution.counts(tile_views(input.0@)),
    {
        let (tiles, already_rejected) = input;
        let ghost all = tile_views(tiles@);
        let n = tiles.len();
        let mut dist = TierDistribution { live: 0, monitored: 0, human_gated: 0, unknown: 0 };
        let mut committed: Vec<Tile> = Vec::new();
        let mut total: u128 = 0;
        for tile in it: tiles
            invariant
                it.seq() == tiles@,
                all == tile_views(tiles@),
                n == tiles@.len(),
                n <= usize::MAX,
                tile_views(committed@) == all.take(it.index() as int),
                dist.counts(all.take(it.index() as int)),
                dist.live <= it.index(),
                dist.monitored <= it.index(),
                dist.human_gated <= it.index(),
                dist.unknown <= it.index(),
                total == total_bytes(all.take(it.index() as int)),
                total <= it.index() * (usize::MAX as int),
        {
            let ghost i = it.index() as int;
            let ghost before = committed@;
            proof {
                lemma_total_step(all, i);
                assert(all[i] == tile@);
                assert(total + tile.byte_size <= (i + 1) * (usize::MAX as int)) by (nonlinear_arith)
                    requires
                        total <= i * (usize::MAX as int),
                        tile.byte_size <= usize::MAX,
                ;
                assert((i + 1) * (usize::MAX as int) <= (usize::MAX as int) * (usize::MAX as int))
                    by (nonlinear_arith)
                    requires
                        i + 1 <= usize::MAX,
                ;
                assert((usize::MAX as int) * (usize::MAX as int) <= u128::MAX) by (nonlinear_arith)
                    requires
                        usize::MAX <= 0xffff_ffff_ffff_ffff,
                ;
            }
            match tile.tier {
                Some(DeployTier::Live) => dist.live = dist.live + 1,
                Some(DeployTier::Monitored) => dist.monitored = dist.monitored + 1,
                Some(DeployTier::HumanGated) => dist.human_gated = dist.human_gated + 1,
                None => dist.unknown = dist.unknown + 1,
            }
            total = total + tile.byte_size as u128;
            committed.push(tile);
            proof {
                assert(tile_views(committed@) =~= tile_views(before).push(tile@));
                assert(all.take(i + 1) =~= all.take(i).push(tile@));
            }
        }
        proof {
            assert(all.take(all.len() as int) =~= all);
        }
        // Compression ratio: model_bytes / total_tile_bytes
        let compression_ratio_milli: u128 = if total > 0 {
            let scaled: u128 = self.model_bytes as u128 * 1000;
            if scaled % total == 0 {
                scaled / total
            } else {
                scaled / total + 1
            }
        } else {
            0
        };
        proof {
            ratio_is_zero_only_without_bytes(self.model_bytes as nat, total as nat);
        }
        CommitOutput {
            committed,
            rejected: already_rejected,
            total_tile_bytes: total,
            compression_ratio_milli,
            tier_distribution: dist,
        }
    }
}

} // verus!
