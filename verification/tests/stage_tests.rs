use plato_forge_pipeline::{
    forge_pipeline, forge_pipeline_with_stages, CommitStage, DeployTier, ExtractStage,
    ScoreStage, SeedInput, Stage, Tile, TierStage, ValidateStage, SCORE_SCALE,
};

fn make_seeds(n: usize) -> Vec<SeedInput> {
    (0..n)
        .map(|i| {
            SeedInput::new(
                &format!("seed content number {} with enough words for density", i),
                &format!("source-{}", i),
            )
        })
        .collect()
}

// ── Stage unit tests ────────────────────────────────────────────────────

#[test]
fn test_extract_stage_expansion() {
    let stage = ExtractStage { expansion_factor: 43 };
    let seeds = make_seeds(59);
    let tiles = stage.process(seeds);
    // 59 seeds × 43 variants each = 2537 tiles (≥ 2501)
    assert!(tiles.len() >= 2501, "expected ≥2501 tiles, got {}", tiles.len());
    // Each tile has an id
    for t in &tiles {
        assert!(t.id > 0);
    }
}

#[test]
fn test_validate_stage_filters() {
    let stage = ValidateStage::default();
    let tiles = vec![
        Tile::new("valid content here", "src").with_id(1),
        Tile::new("", "src").with_id(2),  // empty → rejected
        Tile::new("ab", "src").with_id(3), // too short → rejected
        Tile::new("ok", "").with_id(4),    // missing source → rejected
        {
            let mut t = Tile::new("null\0byte", "src");
            t.id = 5;
            t
        }, // null byte → rejected
    ];
    let (valid, rejected) = stage.process(tiles);
    assert_eq!(valid.len(), 1);
    assert_eq!(rejected.len(), 4);
}

#[test]
fn test_score_stage_adjusts_beliefs() {
    let stage = ScoreStage;
    let mut tile = Tile::new("hello world this is a test sentence", "src");
    tile.id = 42;
    tile.confidence = SCORE_SCALE / 2;
    tile.trust = SCORE_SCALE / 2;
    tile.relevance = SCORE_SCALE / 2;
    tile.tags = vec!["seed".to_string()];

    let out = stage.process(vec![tile]);
    assert_eq!(out.len(), 1);
    // Seed tag boost should raise confidence and trust
    assert!(out[0].confidence >= SCORE_SCALE / 2);
    assert!(out[0].trust >= SCORE_SCALE / 2);
}

#[test]
fn test_tier_stage_classification() {
    let stage = TierStage::default();
    let mut high = Tile::new("x", "src").with_id(1);
    high.confidence = 900_000;
    high.trust = 900_000;
    high.relevance = 900_000;

    let mut mid = Tile::new("x", "src").with_id(2);
    mid.confidence = 450_000;
    mid.trust = 450_000;
    mid.relevance = 450_000;

    let mut low = Tile::new("x", "src").with_id(3);
    low.confidence = 100_000;
    low.trust = 100_000;
    low.relevance = 100_000;

    let out = stage.process(vec![high, mid, low]);
    assert_eq!(out[0].tier, Some(DeployTier::Live));
    assert_eq!(out[1].tier, Some(DeployTier::Monitored));
    assert_eq!(out[2].tier, Some(DeployTier::HumanGated));
}

#[test]
fn test_commit_stage_compression_and_distribution() {
    let stage = CommitStage { model_bytes: 4_400_000_000 };

    let mut t1 = Tile::new(&"a".repeat(1000), "src").with_id(1);
    t1.tier = Some(DeployTier::Live);
    t1.byte_size = 1000;

    let mut t2 = Tile::new(&"b".repeat(1000), "src").with_id(2);
    t2.tier = Some(DeployTier::Monitored);
    t2.byte_size = 1000;

    let out = stage.process((vec![t1, t2], vec![]));
    assert_eq!(out.committed.len(), 2);
    assert_eq!(out.tier_distribution.get(Some(DeployTier::Live)).unwrap(), 1);
    assert_eq!(out.tier_distribution.get(Some(DeployTier::Monitored)).unwrap(), 1);
    // ratio = 4_400_000_000 / 2000 = 2_200_000
    assert!(out.compression_ratio_milli as f64 / 1000.0 > 1.0);
}

// ── Pipeline integration tests ──────────────────────────────────────────

#[test]
fn test_pipeline_happy_path() {
    let seeds = make_seeds(10);
    let result = forge_pipeline(seeds);

    assert!(!result.tiles_produced.is_empty(), "should produce tiles");
    assert!(
        result.compression_ratio_milli as f64 / 1000.0 > 0.0,
        "compression ratio must be positive"
    );
    assert!(!result.tier_distribution.is_empty(), "tier distribution must be non-empty");
}

#[test]
fn test_pipeline_all_rejected() {
    // Seeds that produce tiles which fail validation (empty content)
    let seeds = vec![SeedInput { raw: String::new(), source: "src".to_string(), weight: SCORE_SCALE }];

    // Use a custom extract that produces a single empty-content tile
    let extract = ExtractStage { expansion_factor: 1 };
    let validate = ValidateStage::default();
    let score = ScoreStage;
    let tier = TierStage::default();
    let commit = CommitStage::default();

    let result = forge_pipeline_with_stages(seeds, extract, validate, score, tier, commit);
    // Empty raw → tile content is empty → rejected by validate
    assert!(
        result.tiles_produced.is_empty() || result.tiles_rejected.len() > 0,
        "all-rejected or empty result expected"
    );
}

#[test]
fn test_pipeline_mixed_tiers() {
    // Use varied weights to produce a mix of tier outcomes
    let seeds: Vec<SeedInput> = vec![
        SeedInput::new("high quality seed with many informative words", "high-src")
            .with_weight(2 * SCORE_SCALE),
        SeedInput::new("medium quality content here", "mid-src").with_weight(SCORE_SCALE),
        SeedInput::new("low", "low-src").with_weight(SCORE_SCALE / 10),
    ];

    let result = forge_pipeline(seeds);
    assert!(!result.tiles_produced.is_empty());

    let total = result.tiles_produced.len();
    assert!(total > 0);

    // At least two tiers represented
    assert!(
        result.tier_distribution.len() >= 2,
        "expected mixed tiers, got: {:?}",
        result.tier_distribution
    );
}

// ── Compression ratio test ───────────────────────────────────────────────

#[test]
fn test_compression_ratio_880_to_1() {
    // Use a commit stage tuned so tile budget matches 5MB from 4.4GB model
    let commit = CommitStage { model_bytes: 4_400_000_000 };

    // Create tiles totalling ~5MB (5_000_000 bytes)
    let tile_count = 5000;
    let content = "x".repeat(1000); // 1000 bytes each → 5MB total
    let tiles: Vec<Tile> = (0..tile_count)
        .map(|i| {
            let mut t = Tile::new(&content, "src").with_id(i as u64 + 1);
            t.tier = Some(DeployTier::Live);
            t.byte_size = 1000;
            t
        })
        .collect();

    let out = commit.process((tiles, vec![]));
    let ratio = out.compression_ratio_milli as f64 / 1000.0;

    // 4_400_000_000 / 5_000_000 = 880.0
    assert!((ratio - 880.0).abs() < 0.01, "expected compression ratio ~880:1, got {:.2}", ratio);
}

// ── Tier distribution test ───────────────────────────────────────────────

#[test]
fn test_tier_distribution_live_dominates_good_input() {
    let seeds = make_seeds(59);
    let result = forge_pipeline(seeds);

    let live = result.live_count();
    let monitored = result.monitored_count();
    let human_gated = result.human_gated_count();

    // For well-formed seeds, Live should dominate
    assert!(live > monitored, "Live ({}) should exceed Monitored ({}) for good input", live, monitored);
    assert!(
        live > human_gated,
        "Live ({}) should exceed HumanGated ({}) for good input",
        live,
        human_gated
    );
}

// ── Edge cases ───────────────────────────────────────────────────────────

#[test]
fn test_empty_input() {
    let result = forge_pipeline(vec![]);
    assert!(result.tiles_produced.is_empty());
    assert!(result.tiles_rejected.is_empty());
    assert_eq!(result.compression_ratio_milli as f64 / 1000.0, 0.0);
}

#[test]
fn test_single_tile() {
    let seeds = vec![SeedInput::new("a single seed input tile", "single-src")];
    let extract = ExtractStage { expansion_factor: 1 };
    let result = forge_pipeline_with_stages(
        seeds,
        extract,
        ValidateStage::default(),
        ScoreStage,
        TierStage::default(),
        CommitStage::default(),
    );
    assert_eq!(result.tiles_produced.len(), 1);
    assert!(result.tiles_rejected.is_empty());
}

#[test]
fn test_all_tiles_fail_validation() {
    let stage = ValidateStage { min_content_len: 10_000, max_content_len: 10_001 };
    let tiles = vec![Tile::new("short", "src").with_id(1), Tile::new("also short", "src").with_id(2)];
    let (valid, rejected) = stage.process(tiles);
    assert!(valid.is_empty());
    assert_eq!(rejected.len(), 2);
}

#[test]
fn test_59_seeds_produce_2501_tiles() {
    let stage = ExtractStage { expansion_factor: 43 };
    let seeds = make_seeds(59);
    let tiles = stage.process(seeds);
    // 59 × 43 = 2537 ≥ 2501, demonstrating JC1's actual forge result
    assert!(tiles.len() >= 2501, "JC1's 59 seeds should expand to ≥2501 tiles, got {}", tiles.len());
}

#[test]
fn test_stage_names() {
    assert_eq!(ExtractStage::default().name(), "EXTRACT");
    assert_eq!(ValidateStage::default().name(), "VALIDATE");
    assert_eq!(ScoreStage.name(), "SCORE");
    assert_eq!(TierStage::default().name(), "TIER");
    assert_eq!(CommitStage::default().name(), "COMMIT");
}
