//! Properties that hold across the stages and of the pipeline as a whole.
use vstd::prelude::*;
use crate::commit::{TierDistribution, count_tier, ratio_is_zero_only_without_bytes, ratio_milli, total_bytes};
use crate::text::{blank, byte_len, decimal, fits_in_memory, lemma_encoding_covers_chars};
use crate::extract::{ExtractStage, derived_tile, extract_spec, tiles_per_seed};
use crate::fixed::SCORE_SCALE;
use crate::ids::{seeded_id, seeded_id_is_injective};
use crate::pipeline::{produced_spec, rejected_spec};
use crate::score::{score_spec, scored};
use crate::tier::{TierStage, tier_for, tier_spec, tiered};
use crate::tile::{DeployTier, SeedView, TileView, belief, tier_rank};
use crate::validate::{ValidateStage, accepted, refused, rejection_reason};

verus! {

/// Validation splits its input: every tile is either accepted or refused.
pub proof fn validation_partitions(stage: ValidateStage, s: Seq<TileView>)
    ensures
        accepted(stage, s).len() + refused(stage, s).len() == s.len(),
    decreases s.len(),
{
    if s.len() > 0 {
        validation_partitions(stage, s.drop_last());
    }
}

/// Every accepted tile passes every rule and comes from the input.
pub proof fn accepted_tiles_pass(stage: ValidateStage, s: Seq<TileView>)
    ensures
        forall|i: int|
            0 <= i < accepted(stage, s).len() ==> (rejection_reason(stage, #[trigger] accepted(
                stage,
                s,
            )[i]) is None && s.contains(accepted(stage, s)[i])),
    decreases s.len(),
{
    if s.len() > 0 {
        accepted_tiles_pass(stage, s.drop_last());
        let p = accepted(stage, s.drop_last());
        assert forall|i: int| 0 <= i < accepted(stage, s).len() implies (rejection_reason(
            stage,
            #[trigger] accepted(stage, s)[i],
        ) is None && s.contains(accepted(stage, s)[i])) by {
            if i < p.len() {
                assert(accepted(stage, s)[i] == p[i]);
                let j = choose|j: int| 0 <= j < s.drop_last().len() && s.drop_last()[j] == p[i];
                assert(s[j] == p[i]);
            } else {
                assert(s[s.len() - 1] == accepted(stage, s)[i]);
            }
        }
    }
}

/// Every refused tile comes with the reason for which the rules refuse it.
pub proof fn refused_tiles_carry_their_reason(stage: ValidateStage, s: Seq<TileView>)
    ensures
        forall|i: int|
            0 <= i < refused(stage, s).len() ==> rejection_reason(
                stage,
                (#[trigger] refused(stage, s)[i]).0,
            ) == Some(refused(stage, s)[i].1),
    decreases s.len(),
{
    if s.len() > 0 {
        refused_tiles_carry_their_reason(stage, s.drop_last());
        let p = refused(stage, s.drop_last());
        assert forall|i: int| 0 <= i < refused(stage, s).len() implies rejection_reason(
            stage,
            (#[trigger] refused(stage, s)[i]).0,
        ) == Some(refused(stage, s)[i].1) by {
            if i < p.len() {
                assert(refused(stage, s)[i] == p[i]);
            }
        }
    }
}

/// Validating tiles that already passed validation refuses none of them.
pub proof fn revalidation_accepts_everything(stage: ValidateStage, s: Seq<TileView>)
    ensures
        accepted(stage, accepted(stage, s)) == accepted(stage, s),
        refused(stage, accepted(stage, s)).len() == 0,
    decreases s.len(),
{
    if s.len() > 0 {
        revalidation_accepts_everything(stage, s.drop_last());
        let p = accepted(stage, s.drop_last());
        if rejection_reason(stage, s.last()) is None {
            let q = p.push(s.last());
            assert(q.drop_last() =~= p);
            assert(q.last() == s.last());
        }
    }
}

/// Scoring leaves every score in the unit interval and changes nothing but
/// the three scores.
pub proof fn scoring_stays_in_unit_range(t: TileView)
    ensures
        0 <= scored(t).confidence <= SCORE_SCALE,
        0 <= scored(t).trust <= SCORE_SCALE,
        0 <= scored(t).relevance <= SCORE_SCALE,
        scored(t).id == t.id,
        scored(t).content == t.content,
        scored(t).source == t.source,
        scored(t).tier == t.tier,
        scored(t).tags == t.tags,
        scored(t).byte_size == t.byte_size,
{
}

/// Scoring never lowers a score that is at most 1.0: density and the seed
/// tag only add belief.
pub proof fn scoring_never_lowers_beliefs(t: TileView)
    requires
        t.confidence <= SCORE_SCALE,
        t.trust <= SCORE_SCALE,
        t.relevance <= SCORE_SCALE,
    ensures
        scored(t).confidence >= t.confidence,
        scored(t).trust >= t.trust,
        scored(t).relevance >= t.relevance,
{
}

/// A tile whose belief is no higher than another's gets no higher a tier.
pub proof fn tiering_is_monotone(stage: TierStage, a: TileView, b: TileView)
    requires
        belief(a) <= belief(b),
    ensures
        tier_rank(tier_for(stage, a)) <= tier_rank(tier_for(stage, b)),
{
}

/// Tiering tiles again changes nothing.
pub proof fn tiering_is_idempotent(stage: TierStage, s: Seq<TileView>)
    ensures
        tier_spec(stage, tier_spec(stage, s)) == tier_spec(stage, s),
{
    assert(tier_spec(stage, tier_spec(stage, s)) =~= tier_spec(stage, s));
}

proof fn lemma_count_all_keys(s: Seq<TileView>)
    ensures
        count_tier(s, Some(DeployTier::Live)) + count_tier(s, Some(DeployTier::Monitored))
            + count_tier(s, Some(DeployTier::HumanGated)) + count_tier(s, None) == s.len(),
    decreases s.len(),
{
    if s.len() > 0 {
        lemma_count_all_keys(s.drop_last());
        match s.last().tier {
            Some(DeployTier::Live) => {},
            Some(DeployTier::Monitored) => {},
            Some(DeployTier::HumanGated) => {},
            None => {},
        }
    }
}

proof fn lemma_count_untiered(s: Seq<TileView>)
    requires
        forall|i: int| 0 <= i < s.len() ==> (#[trigger] s[i]).tier is Some,
    ensures
        count_tier(s, None) == 0,
    decreases s.len(),
{
    if s.len() > 0 {
        assert(s.last().tier is Some);
        lemma_count_untiered(s.drop_last());
    }
}

/// A tier distribution counts every tile exactly once.
pub proof fn distribution_counts_every_tile(d: TierDistribution, s: Seq<TileView>)
    requires
        d.counts(s),
    ensures
        d.live + d.monitored + d.human_gated + d.unknown == s.len(),
{
    lemma_count_all_keys(s);
}

/// Extraction turns each seed into `expansion_factor` tiles (one when the
/// factor is zero).
pub proof fn extraction_count(seeds: Seq<SeedView>, extract: ExtractStage)
    ensures
        extract_spec(seeds, extract.expansion_factor).len() == seeds.len() * (
        if extract.expansion_factor == 0 {
            1
        } else {
            extract.expansion_factor as int
        }),
{
    assert(seeds.len() * tiles_per_seed(extract.expansion_factor) >= 0) by (nonlinear_arith)
        requires
            tiles_per_seed(extract.expansion_factor) >= 1,
    ;
}

/// Within one extraction of at most 2^64 tiles, no two tiles share an
/// identifier.
pub proof fn extracted_ids_are_distinct(seeds: Seq<SeedView>, factor: usize, i: int, j: int)
    requires
        extract_spec(seeds, factor).len() <= 0x1_0000_0000_0000_0000,
        0 <= i < extract_spec(seeds, factor).len(),
        0 <= j < extract_spec(seeds, factor).len(),
        i != j,
    ensures
        extract_spec(seeds, factor)[i].id != extract_spec(seeds, factor)[j].id,
{
    let n: int = 0x1_0000_0000_0000_0000;
    let ci = ((i + 1) % n) as u64;
    let cj = ((j + 1) % n) as u64;
    if extract_spec(seeds, factor)[i].id == extract_spec(seeds, factor)[j].id {
        assert(seeded_id(ci) == seeded_id(cj));
        seeded_id_is_injective(ci, cj);
        if i + 1 == n {
            vstd::arithmetic::div_mod::lemma_small_mod((j + 1) as nat, n as nat);
        } else if j + 1 == n {
            vstd::arithmetic::div_mod::lemma_small_mod((i + 1) as nat, n as nat);
        } else {
            vstd::arithmetic::div_mod::lemma_small_mod((i + 1) as nat, n as nat);
            vstd::arithmetic::div_mod::lemma_small_mod((j + 1) as nat, n as nat);
        }
    }
}

/// No extracted tile is lost: each is either produced or rejected.
pub proof fn pipeline_conserves_tiles(
    seeds: Seq<SeedView>,
    extract: ExtractStage,
    validate: ValidateStage,
    tier: TierStage,
)
    ensures
        produced_spec(seeds, extract, validate, tier).len() + rejected_spec(
            seeds,
            extract,
            validate,
        ).len() == extract_spec(seeds, extract.expansion_factor).len(),
{
    validation_partitions(validate, extract_spec(seeds, extract.expansion_factor));
}

/// Every produced tile passed validation, has a tier and has all its scores
/// in the unit interval; every rejected tile carries the reason it failed.
pub proof fn pipeline_output_is_well_formed(
    seeds: Seq<SeedView>,
    extract: ExtractStage,
    validate: ValidateStage,
    tier: TierStage,
)
    ensures
        forall|i: int|
            0 <= i < produced_spec(seeds, extract, validate, tier).len() ==> {
                let t = #[trigger] produced_spec(seeds, extract, validate, tier)[i];
                &&& rejection_reason(validate, t) is None
                &&& t.tier is Some
                &&& 0 <= t.confidence <= SCORE_SCALE
                &&& 0 <= t.trust <= SCORE_SCALE
                &&& 0 <= t.relevance <= SCORE_SCALE
            },
        forall|i: int|
            0 <= i < rejected_spec(seeds, extract, validate).len() ==> rejection_reason(
                validate,
                (#[trigger] rejected_spec(seeds, extract, validate)[i]).0,
            ) == Some(rejected_spec(seeds, extract, validate)[i].1),
{
    let ex = extract_spec(seeds, extract.expansion_factor);
    let acc = accepted(validate, ex);
    accepted_tiles_pass(validate, ex);
    refused_tiles_carry_their_reason(validate, ex);
    assert forall|i: int| 0 <= i < produced_spec(seeds, extract, validate, tier).len() implies {
        let t = #[trigger] produced_spec(seeds, extract, validate, tier)[i];
        &&& rejection_reason(validate, t) is None
        &&& t.tier is Some
        &&& 0 <= t.confidence <= SCORE_SCALE
        &&& 0 <= t.trust <= SCORE_SCALE
        &&& 0 <= t.relevance <= SCORE_SCALE
    } by {
        let a = acc[i];
        assert(rejection_reason(validate, a) is None);
        scoring_stays_in_unit_range(a);
        assert(score_spec(acc)[i] == scored(a));
        assert(produced_spec(seeds, extract, validate, tier)[i] == tiered(tier, scored(a)));
    }
}

/// The distribution of a pipeline run counts each produced tile once, and
/// none as untiered.
pub proof fn pipeline_distribution_covers_output(
    d: TierDistribution,
    seeds: Seq<SeedView>,
    extract: ExtractStage,
    validate: ValidateStage,
    tier: TierStage,
)
    requires
        d.counts(produced_spec(seeds, extract, validate, tier)),
    ensures
        d.live + d.monitored + d.human_gated == produced_spec(seeds, extract, validate, tier).len(),
        d.unknown == 0,
{
    let p = produced_spec(seeds, extract, validate, tier);
    pipeline_output_is_well_formed(seeds, extract, validate, tier);
    lemma_count_all_keys(p);
    assert forall|i: int| 0 <= i < p.len() implies (#[trigger] p[i]).tier is Some by {
    }
    lemma_count_untiered(p);
}

proof fn lemma_extracted_byte_sizes(seeds: Seq<SeedView>, factor: usize)
    ensures
        forall|n: int|
            0 <= n < extract_spec(seeds, factor).len() ==> (#[trigger] extract_spec(seeds, factor)[n]).byte_size
                == byte_len(extract_spec(seeds, factor)[n].content),
{
}

proof fn lemma_total_bytes_positive(s: Seq<TileView>)
    requires
        forall|i: int| 0 <= i < s.len() ==> (#[trigger] s[i]).byte_size >= 1,
    ensures
        (total_bytes(s) == 0) <==> (s.len() == 0),
    decreases s.len(),
{
    if s.len() > 0 {
        assert(s.last().byte_size >= 1);
        assert forall|i: int| 0 <= i < s.drop_last().len() implies (#[trigger] s.drop_last()[i]).byte_size
            >= 1 by {
            assert(s.drop_last()[i] == s[i]);
        }
        lemma_total_bytes_positive(s.drop_last());
    }
}

/// Every produced tile has at least one byte: its content passed the
/// blank-content rule, so it holds a character, and a tile's byte size is
/// the UTF-8 length of its content.
pub proof fn produced_tiles_have_bytes(
    seeds: Seq<SeedView>,
    extract: ExtractStage,
    validate: ValidateStage,
    tier: TierStage,
)
    requires
        forall|n: int|
            0 <= n < extract_spec(seeds, extract.expansion_factor).len() ==> fits_in_memory(
                (#[trigger] extract_spec(seeds, extract.expansion_factor)[n]).content,
            ),
    ensures
        forall|i: int|
            0 <= i < produced_spec(seeds, extract, validate, tier).len() ==> (#[trigger] produced_spec(
                seeds,
                extract,
                validate,
                tier,
            )[i]).byte_size >= 1,
{
    let ex = extract_spec(seeds, extract.expansion_factor);
    let acc = accepted(validate, ex);
    accepted_tiles_pass(validate, ex);
    lemma_extracted_byte_sizes(seeds, extract.expansion_factor);
    assert forall|i: int| 0 <= i < produced_spec(seeds, extract, validate, tier).len() implies (
    #[trigger] produced_spec(seeds, extract, validate, tier)[i]).byte_size >= 1 by {
        let a = acc[i];
        assert(rejection_reason(validate, a) is None);
        let j = choose|j: int| 0 <= j < ex.len() && ex[j] == a;
        assert(fits_in_memory(ex[j].content));
        assert(!blank(a.content));
        assert(a.content.len() > 0);
        lemma_encoding_covers_chars(a.content);
        assert(a.byte_size == byte_len(a.content));
        assert(score_spec(acc)[i] == scored(a));
        assert(produced_spec(seeds, extract, validate, tier)[i] == tiered(tier, scored(a)));
    }
}

/// With a model of at least one byte, the compression ratio of a run reads
/// 0 exactly when the run produced no tile.
pub proof fn ratio_is_zero_only_when_nothing_produced(
    seeds: Seq<SeedView>,
    extract: ExtractStage,
    validate: ValidateStage,
    tier: TierStage,
    model: nat,
)
    requires
        model > 0,
        forall|n: int|
            0 <= n < extract_spec(seeds, extract.expansion_factor).len() ==> fits_in_memory(
                (#[trigger] extract_spec(seeds, extract.expansion_factor)[n]).content,
            ),
    ensures
        (ratio_milli(model, total_bytes(produced_spec(seeds, extract, validate, tier))) == 0) <==> (
        produced_spec(seeds, extract, validate, tier).len() == 0),
{
    let p = produced_spec(seeds, extract, validate, tier);
    produced_tiles_have_bytes(seeds, extract, validate, tier);
    lemma_total_bytes_positive(p);
    ratio_is_zero_only_without_bytes(model, total_bytes(p));
}

/// A lookup in a tier distribution reads the count of the tier asked for:
/// `Live` the live count, `Monitored` the monitored count, `HumanGated`
/// the human-gated count and no tier the untiered count.
pub proof fn distribution_lookup_reads_its_own_count(d: TierDistribution)
    ensures
        d.bucket(Some(DeployTier::Live)) == d.live,
        d.bucket(Some(DeployTier::Monitored)) == d.monitored,
        d.bucket(Some(DeployTier::HumanGated)) == d.human_gated,
        d.bucket(None) == d.unknown,
{
}

/// The trust of a derived tile is `0.4 + 0.01 × j` for variant `j`, limited
/// to 1.0, whatever the seed's weight; a seed tile's trust is 0.5.
pub proof fn extracted_trust_ignores_weight(seeds: Seq<SeedView>, factor: usize, n: int)
    requires
        0 <= n < extract_spec(seeds, factor).len(),
    ensures
        ({
            let j = n % tiles_per_seed(factor);
            let trust = extract_spec(seeds, factor)[n].trust;
            &&& j == 0 ==> trust == 500_000
            &&& j != 0 ==> trust == (if 400_000 + 10_000 * j >= 1_000_000 {
                1_000_000
            } else {
                400_000 + 10_000 * j
            })
        }),
{
}

/// Two seeds that differ only in weight give variants of equal trust.
pub proof fn variant_trust_is_independent_of_weight(a: SeedView, b: SeedView, j: nat, id: u64)
    ensures
        derived_tile(a, j, id).trust == derived_tile(b, j, id).trust,
{
}

/// A tile is refused for a NUL byte only when its content holds the
/// character `'\0'`.
pub proof fn nul_refusal_needs_a_nul(stage: ValidateStage, t: TileView)
    ensures
        rejection_reason(stage, t) == Some("null byte in content"@) ==> t.content.contains('\0'),
{
    reveal_strlit("null byte in content");
    reveal_strlit("empty content");
    reveal_strlit("missing source");
    reveal_strlit("content too short (");
    reveal_strlit("content too long (");
    let len = byte_len(t.content);
    if rejection_reason(stage, t) == Some("null byte in content"@) {
        if blank(t.content) {
            assert("empty content"@.len() != "null byte in content"@.len());
        } else if blank(t.source) {
            assert("missing source"@.len() != "null byte in content"@.len());
        } else if len < stage.min_content_len {
            let r = "content too short ("@ + decimal(len as nat) + ")"@;
            assert(r[0] == 'c');
            assert("null byte in content"@[0] == 'n');
        } else if len > stage.max_content_len {
            let r = "content too long ("@ + decimal(len as nat) + ")"@;
            assert(r[0] == 'c');
            assert("null byte in content"@[0] == 'n');
        } else {
            let i = choose|i: int| 0 <= i < t.content.len() && t.content[i] == '\0';
            assert(t.content[i] == '\0');
        }
    }
}

/// A tile with non-blank content and source, a byte length within the
/// bounds and no `'\0'` in its content is accepted, whatever other control
/// characters (newlines, tabs) it holds.
pub proof fn clean_tiles_are_accepted(stage: ValidateStage, t: TileView)
    requires
        !blank(t.content),
        !blank(t.source),
        stage.min_content_len <= byte_len(t.content) <= stage.max_content_len,
        !t.content.contains('\0'),
    ensures
        rejection_reason(stage, t) is None,
{
}

/// Scoring adds the 0.1 boost to trust exactly when one of the tile's tags
/// is `seed`: without that tag a trust in `[0, 1]` is left as it was.
pub proof fn seed_boost_follows_the_seed_tag(t: TileView)
    requires
        0 <= t.trust <= SCORE_SCALE,
    ensures
        !t.tags.contains("seed"@) ==> scored(t).trust == t.trust,
        t.tags.contains("seed"@) ==> scored(t).trust == (if t.trust + 100_000 >= 1_000_000 {
            1_000_000
        } else {
            t.trust + 100_000
        }),
{
}

/// Of two tiles that differ only in tags, a `seed` tag on one and none on
/// the other, the tagged one gains exactly the 0.1 boost in trust (limited
/// to 1.0), the same confidence boost, and the same relevance.
pub proof fn seed_tag_is_the_only_boost(a: TileView, b: TileView)
    requires
        a.content == b.content,
        a.confidence == b.confidence,
        a.trust == b.trust,
        a.relevance == b.relevance,
        0 <= a.trust <= SCORE_SCALE,
        0 <= a.confidence,
        a.tags.contains("seed"@),
        !b.tags.contains("seed"@),
    ensures
        scored(a).trust == (if b.trust + 100_000 >= 1_000_000 {
            1_000_000
        } else {
            b.trust + 100_000
        }),
        scored(b).trust == b.trust,
        scored(a).confidence == (if scored(b).confidence + 100_000 >= 1_000_000 {
            1_000_000
        } else {
            scored(b).confidence + 100_000
        }) || scored(b).confidence == SCORE_SCALE,
        scored(a).relevance == scored(b).relevance,
{
}

/// After tiering, each tile's tier is `Live` when the mean of its scores
/// reaches the live threshold, else `Monitored` when it reaches the
/// monitored threshold, else `HumanGated`, whatever tier it held before.
pub proof fn tiering_sets_the_tier_from_the_scores(stage: TierStage, s: Seq<TileView>, i: int)
    requires
        0 <= i < s.len(),
    ensures
        ({
            let mean = (s[i].confidence + s[i].trust + s[i].relevance) / 3;
            tier_spec(stage, s)[i].tier == Some(
                if mean >= stage.live_threshold {
                    DeployTier::Live
                } else if mean >= stage.monitored_threshold {
                    DeployTier::Monitored
                } else {
                    DeployTier::HumanGated
                },
            )
        }),
{
}

/// Two tiles that differ only in the tier they held get the same tier.
pub proof fn previous_tier_does_not_matter(stage: TierStage, a: TileView, b: TileView)
    requires
        a.confidence == b.confidence,
        a.trust == b.trust,
        a.relevance == b.relevance,
    ensures
        tiered(stage, a).tier == tiered(stage, b).tier,
{
}

} // verus!
