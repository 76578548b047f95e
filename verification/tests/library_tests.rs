use plato_forge_pipeline::ids::id_from_nanos;
use plato_forge_pipeline::pipeline::stage_timing;
use plato_forge_pipeline::text::{count_words, is_blank, is_whitespace, push_decimal};
use plato_forge_pipeline::{
    forge_pipeline, forge_pipeline_with_stages, nano_id, nano_id_seeded, CommitStage, DeployTier,
    ExtractStage, ScoreStage, SeedInput, Stage, Tile, TierDistribution, TierStage,
    ValidateStage, SCORE_SCALE,
};

#[test]
fn seeded_ids_follow_the_congruential_step() {
    assert_eq!(nano_id_seeded(0), 1442695040888963407);
    assert_eq!(nano_id_seeded(1), 7806831264735756412);
    assert_eq!(
        nano_id_seeded(u64::MAX),
        1442695040888963407u64.wrapping_sub(6364136223846793005)
    );
}

#[test]
fn clock_ids_are_after_the_epoch() {
    assert!(nano_id() > 0);
    assert!(Tile::new("abc", "s").id > 0);
}

#[test]
fn extraction_builds_seed_and_variant_tiles() {
    let stage = ExtractStage { expansion_factor: 3 };
    let tiles = stage.process(vec![SeedInput::new("abc", "s")]);
    assert_eq!(tiles.len(), 3);

    assert_eq!(tiles[0].id, nano_id_seeded(1));
    assert_eq!(tiles[0].content, "abc");
    assert_eq!(tiles[0].source, "s");
    assert_eq!(tiles[0].confidence, 500_000);
    assert_eq!(tiles[0].trust, 500_000);
    assert_eq!(tiles[0].relevance, 500_000);
    assert_eq!(tiles[0].tier, None);
    assert_eq!(tiles[0].tags, vec!["seed".to_string()]);
    assert_eq!(tiles[0].byte_size, 3);

    assert_eq!(tiles[1].id, nano_id_seeded(2));
    assert_eq!(tiles[1].content, "abc [variant:1 src:s]");
    assert_eq!(tiles[1].confidence, 315_000);
    assert_eq!(tiles[1].trust, 410_000);
    assert_eq!(tiles[1].relevance, 362_000);
    assert_eq!(tiles[1].tags, vec!["derived:1".to_string()]);
    assert_eq!(tiles[1].byte_size, 21);

    assert_eq!(tiles[2].id, nano_id_seeded(3));
    assert_eq!(tiles[2].content, "abc [variant:2 src:s]");
    assert_eq!(tiles[2].confidence, 330_000);
    assert_eq!(tiles[2].trust, 420_000);
    assert_eq!(tiles[2].relevance, 374_000);
}

#[test]
fn extraction_counts_ids_across_seeds() {
    let stage = ExtractStage { expansion_factor: 2 };
    let tiles = stage.process(vec![SeedInput::new("one", "a"), SeedInput::new("two", "b")]);
    assert_eq!(tiles.len(), 4);
    let ids: Vec<u64> = tiles.iter().map(|t| t.id).collect();
    assert_eq!(
        ids,
        vec![nano_id_seeded(1), nano_id_seeded(2), nano_id_seeded(3), nano_id_seeded(4)]
    );
    assert_eq!(tiles[2].content, "two");
    assert_eq!(tiles[3].content, "two [variant:1 src:b]");
}

#[test]
fn extraction_with_factor_zero_keeps_only_seed_tiles() {
    let stage = ExtractStage { expansion_factor: 0 };
    let tiles = stage.process(vec![SeedInput::new("one", "a"), SeedInput::new("two", "b")]);
    assert_eq!(tiles.len(), 2);
    assert_eq!(tiles[1].content, "two");
}

#[test]
fn extraction_scales_scores_by_weight() {
    let stage = ExtractStage { expansion_factor: 2 };
    let heavy = stage.process(vec![SeedInput::new("w", "s").with_weight(3 * SCORE_SCALE)]);
    // seed confidence is half the weight, unclamped
    assert_eq!(heavy[0].confidence, 1_500_000);
    // 0.3 + 1 × 0.015 × 3 = 0.345
    assert_eq!(heavy[1].confidence, 345_000);
    assert_eq!(heavy[1].relevance, 386_000);

    let negative = stage.process(vec![SeedInput::new("w", "s").with_weight(-3)]);
    // half of -3 millionths, rounded down
    assert_eq!(negative[0].confidence, -2);

    let huge = stage.process(vec![SeedInput::new("w", "s").with_weight(-i64::MAX)]);
    assert_eq!(huge[1].confidence, 0);
    assert_eq!(huge[1].relevance, 0);
}

#[test]
fn derived_scores_saturate_at_one() {
    let stage = ExtractStage { expansion_factor: 80 };
    let tiles = stage.process(vec![SeedInput::new("w", "s")]);
    // trust 0.4 + 79 × 0.01 = 1.19, limited to 1.0
    assert_eq!(tiles[79].trust, SCORE_SCALE);
    // confidence 0.3 + 79 × 0.015 = 1.485, limited to 1.0
    assert_eq!(tiles[79].confidence, SCORE_SCALE);
}

#[test]
fn validation_reports_each_reason() {
    let stage = ValidateStage::default();
    let mut long = Tile::new(&"z".repeat(5000), "src");
    long.id = 6;
    let tiles = vec![
        Tile::new("   \t", "src").with_id(1),
        Tile::new("ab", "src").with_id(2),
        long,
        Tile::new("fine text", " ").with_id(4),
        Tile::new("bad\0text", "src").with_id(5),
        Tile::new("good text", "src").with_id(7),
    ];
    let (valid, rejected) = stage.process(tiles);
    assert_eq!(valid.len(), 1);
    assert_eq!(valid[0].id, 7);
    let reasons: Vec<&str> = rejected.iter().map(|(_, r)| r.as_str()).collect();
    assert_eq!(
        reasons,
        vec![
            "empty content",
            "content too short (2)",
            "content too long (5000)",
            "missing source",
            "null byte in content",
        ]
    );
    assert_eq!(rejected[0].0.id, 1);
    assert_eq!(rejected[4].0.id, 5);
}

#[test]
fn validation_measures_utf8_bytes() {
    let stage = ValidateStage { min_content_len: 4, max_content_len: 4096 };
    // two characters, four bytes
    let (valid, rejected) = stage.process(vec![Tile::new("éé", "src").with_id(1)]);
    assert_eq!(valid.len(), 1);
    assert!(rejected.is_empty());
    // ideographic space is whitespace
    let (valid, rejected) = stage.process(vec![Tile::new("\u{3000}\u{3000}", "src").with_id(2)]);
    assert!(valid.is_empty());
    assert_eq!(rejected[0].1, "empty content");
}

#[test]
fn revalidating_accepted_tiles_rejects_none() {
    let stage = ValidateStage::default();
    let tiles = vec![
        Tile::new("good one", "a").with_id(1),
        Tile::new("", "a").with_id(2),
        Tile::new("good two", "b").with_id(3),
    ];
    let (valid, _) = stage.process(tiles);
    let (again, rejected) = stage.process(valid);
    assert_eq!(again.len(), 2);
    assert!(rejected.is_empty());
}

#[test]
fn scoring_uses_density_and_seed_tag() {
    // 2 words in 11 bytes: density = 10/11 → 909_090
    let mut t = Tile::new("hello world", "src");
    t.confidence = 100_000;
    t.trust = 200_000;
    t.relevance = 300_000;
    t.tags = vec!["seed".to_string()];
    let mut plain = t.clone();
    plain.tags = vec![];
    let out = ScoreStage.process(vec![t, plain]);
    assert_eq!(out[0].confidence, 100_000 + 181_818 + 100_000);
    assert_eq!(out[0].trust, 300_000);
    assert_eq!(out[0].relevance, 300_000 + 136_363);
    assert_eq!(out[1].confidence, 100_000 + 181_818);
    assert_eq!(out[1].trust, 200_000);
    assert_eq!(out[1].relevance, 300_000 + 136_363);
}

#[test]
fn scoring_limits_scores_to_unit_range() {
    let mut high = Tile::new("a b c d e f", "src");
    high.confidence = 2 * SCORE_SCALE;
    high.trust = SCORE_SCALE;
    high.relevance = SCORE_SCALE;
    high.tags = vec!["seed".to_string()];
    let mut low = Tile::new("", "src");
    low.confidence = -5;
    low.trust = -5;
    low.relevance = -5;
    let out = ScoreStage.process(vec![high, low]);
    assert_eq!(out[0].confidence, SCORE_SCALE);
    assert_eq!(out[0].trust, SCORE_SCALE);
    assert_eq!(out[0].relevance, SCORE_SCALE);
    assert_eq!(out[1].confidence, 0);
    assert_eq!(out[1].trust, 0);
    assert_eq!(out[1].relevance, 0);
}

#[test]
fn tiering_at_the_thresholds() {
    let stage = TierStage::default();
    let mut at_live = Tile::new("x", "s");
    at_live.confidence = 630_000;
    at_live.trust = 630_000;
    at_live.relevance = 630_000;
    let mut below_live = at_live.clone();
    below_live.relevance = 629_997;
    let mut at_monitored = Tile::new("x", "s");
    at_monitored.confidence = 420_000;
    at_monitored.trust = 420_000;
    at_monitored.relevance = 420_000;
    let mut below = at_monitored.clone();
    below.trust = 419_999;
    let out = stage.process(vec![at_live, below_live, at_monitored, below]);
    assert_eq!(out[0].tier, Some(DeployTier::Live));
    assert_eq!(out[1].tier, Some(DeployTier::Monitored));
    assert_eq!(out[2].tier, Some(DeployTier::Monitored));
    assert_eq!(out[3].tier, Some(DeployTier::HumanGated));
}

#[test]
fn tiering_twice_changes_nothing() {
    let stage = TierStage::default();
    let mut t = Tile::new("x", "s");
    t.confidence = 500_000;
    t.trust = 500_000;
    t.relevance = 500_000;
    let once = stage.process(vec![t]);
    let tier = once[0].tier;
    let twice = stage.process(once);
    assert_eq!(twice[0].tier, tier);
}

#[test]
fn higher_belief_never_gets_a_lower_tier() {
    let stage = TierStage::default();
    let mut tiles = Vec::new();
    for v in [0i64, 300_000, 420_000, 500_000, 630_000, 900_000] {
        let mut t = Tile::new("x", "s");
        t.confidence = v;
        t.trust = v;
        t.relevance = v;
        tiles.push(t);
    }
    let out = stage.process(tiles);
    let rank = |t: &Option<DeployTier>| match t {
        Some(DeployTier::Live) => 2,
        Some(DeployTier::Monitored) => 1,
        _ => 0,
    };
    for w in out.windows(2) {
        assert!(rank(&w[0].tier) <= rank(&w[1].tier));
    }
}

#[test]
fn belief_score_rounds_down() {
    let mut t = Tile::new("x", "s");
    t.confidence = 1;
    t.trust = 1;
    t.relevance = 0;
    assert_eq!(t.belief_score(), 0);
    t.confidence = -1;
    t.trust = 0;
    assert_eq!(t.belief_score(), -1);
    t.confidence = 900_000;
    t.trust = 600_000;
    t.relevance = 300_000;
    assert_eq!(t.belief_score(), 600_000);
}

#[test]
fn commit_counts_untiered_tiles_and_exact_ratio() {
    let stage = CommitStage { model_bytes: 4_400_000_000 };
    let mut a = Tile::new("x", "s");
    a.byte_size = 1000;
    let mut b = Tile::new("y", "s");
    b.byte_size = 1000;
    b.tier = Some(DeployTier::HumanGated);
    let out = stage.process((vec![a, b], vec![(Tile::new("", "s"), "empty content".to_string())]));
    assert_eq!(out.total_tile_bytes, 2000);
    assert_eq!(out.compression_ratio_milli, 2_200_000_000);
    assert_eq!(out.tier_distribution.unknown, 1);
    assert_eq!(out.tier_distribution.human_gated, 1);
    assert_eq!(out.tier_distribution.get(None), Some(1));
    assert_eq!(out.tier_distribution.get(Some(DeployTier::Live)), None);
    assert_eq!(out.tier_distribution.len(), 2);
    assert_eq!(out.rejected.len(), 1);
    assert_eq!(out.rejected[0].1, "empty content");
}

#[test]
fn empty_commit_has_ratio_zero() {
    let out = CommitStage::default().process((vec![], vec![]));
    assert_eq!(out.compression_ratio_milli, 0);
    assert_eq!(out.total_tile_bytes, 0);
    assert!(out.tier_distribution.is_empty());
}

#[test]
fn distribution_queries() {
    let d = TierDistribution { live: 3, monitored: 0, human_gated: 1, unknown: 0 };
    assert_eq!(d.get(Some(DeployTier::Live)), Some(3));
    assert_eq!(d.get(Some(DeployTier::Monitored)), None);
    assert_eq!(d.len(), 2);
    assert!(!d.is_empty());
}

#[test]
fn pipeline_conserves_every_extracted_tile() {
    let seeds = vec![
        SeedInput::new("a well formed seed", "src"),
        SeedInput::new("", "src"),
        SeedInput::new("another fine seed", ""),
    ];
    let extract = ExtractStage { expansion_factor: 4 };
    let result = forge_pipeline_with_stages(
        seeds,
        extract,
        ValidateStage::default(),
        ScoreStage,
        TierStage::default(),
        CommitStage::default(),
    );
    assert_eq!(result.tiles_produced.len() + result.tiles_rejected.len(), 12);
    let d = &result.tier_distribution;
    assert_eq!(d.live + d.monitored + d.human_gated, result.tiles_produced.len());
    assert_eq!(d.unknown, 0);
    for t in &result.tiles_produced {
        assert!(t.tier.is_some());
        assert!(0 <= t.confidence && t.confidence <= SCORE_SCALE);
        assert!(0 <= t.trust && t.trust <= SCORE_SCALE);
        assert!(0 <= t.relevance && t.relevance <= SCORE_SCALE);
    }
    // the empty seed's own tile is rejected; its variants carry text
    assert_eq!(result.tiles_rejected[0].1, "empty content");
}

#[test]
fn pipeline_records_stage_timings_in_order() {
    let result = forge_pipeline(vec![SeedInput::new("some seed text", "src")]);
    let names: Vec<&str> = result.stage_timings_ns.iter().map(|(n, _)| n.as_str()).collect();
    assert_eq!(names, vec!["EXTRACT", "VALIDATE", "SCORE", "TIER", "COMMIT"]);
    assert_eq!(result.model_bytes, 4_400_000_000);
    let total: u128 = result.tiles_produced.iter().map(|t| t.byte_size as u128).sum();
    assert_eq!(result.total_tile_bytes, total);
    assert_eq!(result.compression_ratio_milli, (4_400_000_000u128 * 1000 + total - 1) / total);
}

#[test]
fn text_helpers() {
    assert_eq!(count_words("  two   words "), 2);
    assert_eq!(count_words(""), 0);
    assert_eq!(count_words("a\u{2003}b\nc"), 3);
    assert!(is_blank(" \t\u{85}\u{a0}"));
    assert!(!is_blank(" x "));
    assert!(is_whitespace('\u{3000}'));
    assert!(!is_whitespace('\u{200b}'));
    let mut s = "n=".to_string();
    push_decimal(&mut s, 1234);
    assert_eq!(s, "n=1234");
    let mut z = String::new();
    push_decimal(&mut z, 0);
    assert_eq!(z, "0");
}

#[test]
fn tier_names() {
    assert_eq!(DeployTier::Live.to_string(), "Live");
    assert_eq!(DeployTier::Monitored.to_string(), "Monitored");
    assert_eq!(DeployTier::HumanGated.to_string(), "HumanGated");
}

#[test]
fn seed_weights() {
    let s = SeedInput::new("raw", "src");
    assert_eq!(s.weight, SCORE_SCALE);
    let s = s.with_weight(250_000);
    assert_eq!(s.weight, 250_000);
    assert_eq!(s.raw, "raw");
}

#[test]
fn extracted_ids_are_distinct() {
    let seeds: Vec<SeedInput> = (0..20)
        .map(|i| SeedInput::new(&format!("seed {}", i), "src"))
        .collect();
    let tiles = ExtractStage::default().process(seeds);
    let mut ids: Vec<u64> = tiles.iter().map(|t| t.id).collect();
    ids.sort();
    ids.dedup();
    assert_eq!(ids.len(), 20 * 43);
}

#[test]
fn empty_pipeline_produces_nothing() {
    let result = forge_pipeline(vec![]);
    assert!(result.tiles_produced.is_empty());
    assert!(result.tiles_rejected.is_empty());
    assert_eq!(result.total_tile_bytes, 0);
    assert_eq!(result.compression_ratio_milli, 0);
    assert!(result.tier_distribution.is_empty());
}

#[test]
fn blank_source_is_reported_before_length() {
    let stage = ValidateStage::default();
    let (valid, rejected) = stage.process(vec![Tile::new("ok", "").with_id(4)]);
    assert!(valid.is_empty());
    assert_eq!(rejected[0].1, "missing source");
}

#[test]
fn ratio_is_rounded_up_and_zero_only_without_bytes() {
    let mut t = Tile::new("x", "s");
    t.byte_size = 2000;
    let out = CommitStage { model_bytes: 1 }.process((vec![t.clone()], vec![]));
    // 1 / 2000 = 0.0005, which is 0.5 thousandths, rounded up to 1
    assert_eq!(out.compression_ratio_milli, 1);
    let mut u = t.clone();
    u.byte_size = 3;
    let out = CommitStage { model_bytes: 1 }.process((vec![u], vec![]));
    // 1 / 3 = 333.33 thousandths, rounded up to 334
    assert_eq!(out.compression_ratio_milli, 334);
    let out = CommitStage { model_bytes: 0 }.process((vec![t], vec![]));
    assert_eq!(out.compression_ratio_milli, 0);
}

#[test]
fn clock_readings_become_ids() {
    assert_eq!(id_from_nanos(None), 0);
    assert_eq!(id_from_nanos(Some(7)), 7);
    assert_eq!(id_from_nanos(Some((1u128 << 64) + 5)), 5);
}

#[test]
fn stage_timings_saturate() {
    let t = stage_timing("TIER", 4, 10);
    assert_eq!(t.0, "TIER");
    assert_eq!(t.1, 6);
    assert_eq!(stage_timing("TIER", 10, 4).1, 0);
}

#[test]
fn ratio_is_zero_exactly_when_nothing_is_produced() {
    let run = |raw: &str, model: u64| {
        forge_pipeline_with_stages(
            vec![SeedInput::new(raw, "src")],
            ExtractStage { expansion_factor: 1 },
            ValidateStage::default(),
            ScoreStage,
            TierStage::default(),
            CommitStage { model_bytes: model },
        )
    };
    let produced = run("a seed with enough text", 1);
    assert_eq!(produced.tiles_produced.len(), 1);
    assert!(produced.tiles_produced[0].byte_size >= 1);
    assert_eq!(produced.compression_ratio_milli, 44);
    let rejected = run("  ", 1);
    assert!(rejected.tiles_produced.is_empty());
    assert_eq!(rejected.compression_ratio_milli, 0);
}

#[test]
fn pipeline_result_prints_for_debugging() {
    let result = forge_pipeline(vec![]);
    assert!(format!("{:?}", result).contains("compression_ratio_milli"));
}
