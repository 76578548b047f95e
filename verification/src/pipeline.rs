//! The whole flywheel: EXTRACT → VALIDATE → SCORE → TIER → COMMIT.
use vstd::prelude::*;
use crate::commit::{CommitStage, TierDistribution, ratio_milli, total_bytes};
use crate::extract::{ExtractStage, extract_spec};
use crate::ids::nano_id;
use crate::text::fits_in_memory;
use crate::score::{ScoreStage, score_spec};
use crate::stage::Stage;
use crate::tier::{TierStage, tier_spec};
use crate::tile::{SeedInput, SeedView, Tile, TileView, rejection_views, seed_views, tile_views};
use crate::validate::{ValidateStage, accepted, refused};

verus! {

/// What a run of the pipeline produced.
#[derive(Debug)]
pub struct PipelineResult {
    pub tiles_produced: Vec<Tile>,
    pub tiles_rejected: Vec<(Tile, String)>,
    /// The model size the tiles were measured against.
    pub model_bytes: u64,
    /// The sum of the produced tiles' byte sizes.
    pub total_tile_bytes: u128,
    /// `model_bytes / total_tile_bytes` in thousandths, rounded up; 0 when
    /// no bytes were produced or the model is empty.
    pub compression_ratio_milli: u128,
    pub tier_distribution: TierDistribution,
    /// Each stage's name with the nanoseconds it took, in running order.
    pub stage_timings_ns: Vec<(String, u64)>,
}

/// The tiles extracted from `seeds` that pass validation, scored and tiered.
pub open spec fn produced_spec(
    seeds: Seq<SeedView>,
    extract: ExtractStage,
    validate: ValidateStage,
    tier: TierStage,
) -> Seq<TileView> {
    tier_spec(tier, score_spec(accepted(validate, extract_spec(seeds, extract.expansion_factor))))
}

/// The tiles extracted from `seeds` that fail validation, with the reasons.
pub open spec fn rejected_spec(
    seeds: Seq<SeedView>,
    extract: ExtractStage,
    validate: ValidateStage,
) -> Seq<(TileView, Seq<char>)> {
    refused(validate, extract_spec(seeds, extract.expansion_factor))
}

/// Whether `timings` names the five stages in running order.
pub open spec fn stage_order(timings: Seq<(String, u64)>) -> bool {
    &&& timings.len() == 5
    &&& timings[0].0@ == "EXTRACT"@
    &&& timings[1].0@ == "VALIDATE"@
    &&& timings[2].0@ == "SCORE"@
    &&& timings[3].0@ == "TIER"@
    &&& timings[4].0@ == "COMMIT"@
}

/// The time between two clock readings: `end - start`, or 0 when the clock
/// went backwards.
pub open spec fn elapsed(start: u64, end: u64) -> u64 {
    if end >= start {
        (end - start) as u64
    } else {
        0
    }
}

/// A stage's name with the nanoseconds between the readings taken before
/// and after it.
pub fn stage_timing(name: &str, start: u64, end: u64) -> (t: (String, u64))
    ensures
        t.0@ == name@,
        t.1 == elapsed(start, end),
{
    (name.to_owned(), end.saturating_sub(start))
}

impl PipelineResult {
    /// The number of `Live` tiles.
    pub fn live_count(&self) -> (n: usize)
        ensures
            n == self.tier_distribution.live,
    {
        self.tier_distribution.live
    }

    /// The number of `Monitored` tiles.
    pub fn monitored_count(&self) -> (n: usize)
        ensures
            n == self.tier_distribution.monitored,
    {
        self.tier_distribution.monitored
    }

    /// The number of `HumanGated` tiles.
    pub fn human_gated_count(&self) -> (n: usize)
        ensures
            n == self.tier_distribution.human_gated,
    {
        self.tier_distribution.human_gated
    }
}

/// Runs the pipeline with the default stages.
pub fn forge_pipeline(seeds: Vec<SeedInput>) -> (r: PipelineResult)
    ensures
        tile_views(r.tiles_produced@) == produced_spec(
            seed_views(seeds@),
            ExtractStage { expansion_factor: 43 },
            ValidateStage { min_content_len: 3, max_content_len: 4096 },
            TierStage { live_threshold: 630_000, monitored_threshold: 420_000 },
        ),
        rejection_views(r.tiles_rejected@) == rejected_spec(
            seed_views(seeds@),
            ExtractStage { expansion_factor: 43 },
            ValidateStage { min_content_len: 3, max_content_len: 4096 },
        ),
        r.model_bytes == 4_400_000_000,
        r.total_tile_bytes == total_bytes(tile_views(r.tiles_produced@)),
        r.compression_ratio_milli == ratio_milli(
            4_400_000_000,
            total_bytes(tile_views(r.tiles_produced@)),
        ),
        (r.compression_ratio_milli == 0) <==> (r.total_tile_bytes == 0),
        (r.compression_ratio_milli == 0) <==> (r.tiles_produced@.len() == 0),
        r.tier_distribution.counts(tile_views(r.tiles_produced@)),
        stage_order(r.stage_timings_ns@),
{
    forge_pipeline_with_stages(
        seeds,
        ExtractStage::default(),
        ValidateStage::default(),
        ScoreStage,
        TierStage::default(),
        CommitStage::default(),
    )
}

/// Runs the five stages in order and times each one.
pub fn forge_pipeline_with_stages(
    seeds: Vec<SeedInput>,
    extract: ExtractStage,
    validate: ValidateStage,
    score: ScoreStage,
    tier: TierStage,
    commit: CommitStage,
) -> (r: PipelineResult)
    ensures
        tile_views(r.tiles_produced@) == produced_spec(seed_views(seeds@), extract, validate, tier),
        rejection_views(r.tiles_rejected@) == rejected_spec(seed_views(seeds@), extract, validate),
        r.model_bytes == commit.model_bytes,
        r.total_tile_bytes == total_bytes(tile_views(r.tiles_produced@)),
        r.compression_ratio_milli == ratio_milli(
            commit.model_bytes as nat,
            total_bytes(tile_views(r.tiles_produced@)),
        ),
        (r.compression_ratio_milli == 0) <==> (r.total_tile_bytes == 0 || commit.model_bytes == 0),
        commit.model_bytes > 0 ==> ((r.compression_ratio_milli == 0) <==> (r.tiles_produced@.len()
            == 0)),
        r.tier_distribution.counts(tile_views(r.tiles_produced@)),
        stage_order(r.stage_timings_ns@),
{
    let mut timings: Vec<(String, u64)> = Vec::new();

    // Stage 1: EXTRACT
    let t0 = nano_id();
    let ghost seed_list = seed_views(seeds@);
    let raw_tiles = extract.process(seeds);
    proof {
        let ex = extract_spec(seed_list, extract.expansion_factor);
        assert forall|n: int| 0 <= n < ex.len() implies fits_in_memory((#[trigger] ex[n]).content) by {
            assert(tile_views(raw_tiles@)[n] == raw_tiles@[n]@);
        }
    }
    let t1 = nano_id();
    timings.push(stage_timing("EXTRACT", t0, t1));

    // Stage 2: VALIDATE
    let t0 = nano_id();
    let (valid_tiles, rejected_tiles) = validate.process(raw_tiles);
    let t1 = nano_id();
    timings.push(stage_timing("VALIDATE", t0, t1));

    // Stage 3: SCORE
    let t0 = nano_id();
    let scored_tiles = score.process(valid_tiles);
    let t1 = nano_id();
    timings.push(stage_timing("SCORE", t0, t1));

    // Stage 4: TIER
    let t0 = nano_id();
    let tiered_tiles = tier.process(scored_tiles);
    let t1 = nano_id();
    timings.push(stage_timing("TIER", t0, t1));

    // Stage 5: COMMIT
    let t0 = nano_id();
    let commit_out = commit.process((tiered_tiles, rejected_tiles));
    let t1 = nano_id();
    timings.push(stage_timing("COMMIT", t0, t1));

    proof {
        if commit.model_bytes > 0 {
            crate::laws::ratio_is_zero_only_when_nothing_produced(
                seed_list,
                extract,
                validate,
                tier,
                commit.model_bytes as nat,
            );
        }
    }
    PipelineResult {
        model_bytes: commit.model_bytes,
        total_tile_bytes: commit_out.total_tile_bytes,
        compression_ratio_milli: commit_out.compression_ratio_milli,
        tier_distribution: commit_out.tier_distribution,
        tiles_produced: commit_out.committed,
        tiles_rejected: commit_out.rejected,
        stage_timings_ns: timings,
    }
}

} // verus!
